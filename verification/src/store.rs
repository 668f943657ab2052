//! The shared state the bridge publishes: the last known player state
//! and the locally emulated volume, and the volume arithmetic.
//!
//! The process holds one store (an atomic volume cell and a
//! single-writer player-state cell); command handlers work on plain
//! snapshots of it.

use vstd::prelude::*;

verus! {

use crate::player::PlayerState;
use crate::player::PlayerStateView;
use crate::player::opt_state_view;

/// What a connection handler sees of the shared state at one instant.
pub struct StateSnapshot {
    /// Emulated volume, `0 ..= 100`; it never reaches the backend.
    pub volume: u8,
    /// Last published player state; `None` until the first successful
    /// poll and again whenever the controller loses the backend.
    pub player: Option<PlayerState>,
}

pub struct SnapshotView {
    pub volume: u8,
    pub player: Option<PlayerStateView>,
}

impl View for StateSnapshot {
    type V = SnapshotView;

    open spec fn view(&self) -> SnapshotView {
        SnapshotView { volume: self.volume, player: opt_state_view(self.player) }
    }
}

/// An integer clamped into the emulated volume range `0 ..= 100`.
pub open spec fn clamp_volume(v: int) -> u8 {
    if v < 0 {
        0u8
    } else if v > 100 {
        100u8
    } else {
        v as u8
    }
}

/// The volume after a relative `volume <delta>` command: the delta is
/// added and the result clamped into `0 ..= 100`.
pub fn apply_volume_delta(volume: u8, delta: i8) -> (r: u8)
    ensures
        r == clamp_volume(volume + delta),
{
    let v: i16 = volume as i16 + delta as i16;
    if v < 0 {
        0
    } else if v > 100 {
        100
    } else {
        v as u8
    }
}

/// The volume after an absolute `setvol <value>` command: the value
/// clamped into `0 ..= 100`.
pub fn clamp_setvol(v: i64) -> (r: u8)
    ensures
        r == clamp_volume(v as int),
{
    if v < 0 {
        0
    } else if v > 100 {
        100
    } else {
        v as u8
    }
}

} // verus!
