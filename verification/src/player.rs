//! The snapshot of backend-observable facts that the controller
//! publishes and the status, current-song and idle commands read.

use vstd::prelude::*;

verus! {

use crate::text::bytes_eq;

/// Transport state of the backend session.
#[derive(Clone, Copy, PartialEq, Eq, Structural, Debug)]
pub enum PlaybackStatus {
    Playing,
    Paused,
    Stopped,
}

/// One observation of the backend: transport state, track metadata and
/// timing.  Durations are kept in integer milliseconds.  Compared by
/// full structural equality to detect change.
#[derive(Debug)]
pub struct PlayerState {
    pub playback_status: PlaybackStatus,
    pub title: Option<Vec<u8>>,
    pub artist: Option<Vec<u8>>,
    pub duration_ms: Option<u64>,
    pub elapsed_ms: Option<u64>,
    pub art_url: Option<Vec<u8>>,
}

/// Mathematical value of a `PlayerState`.
pub struct PlayerStateView {
    pub playback_status: PlaybackStatus,
    pub title: Option<Seq<u8>>,
    pub artist: Option<Seq<u8>>,
    pub duration_ms: Option<u64>,
    pub elapsed_ms: Option<u64>,
    pub art_url: Option<Seq<u8>>,
}

pub open spec fn opt_bytes_view(o: Option<Vec<u8>>) -> Option<Seq<u8>> {
    match o {
        Some(v) => Some(v@),
        None => None,
    }
}

impl View for PlayerState {
    type V = PlayerStateView;

    open spec fn view(&self) -> PlayerStateView {
        PlayerStateView {
            playback_status: self.playback_status,
            title: opt_bytes_view(self.title),
            artist: opt_bytes_view(self.artist),
            duration_ms: self.duration_ms,
            elapsed_ms: self.elapsed_ms,
            art_url: opt_bytes_view(self.art_url),
        }
    }
}

/// The value of an optional player state, as the store holds one only
/// after the first successful poll.
pub open spec fn opt_state_view(o: Option<PlayerState>) -> Option<PlayerStateView> {
    match o {
        Some(s) => Some(s@),
        None => None,
    }
}

pub fn clone_bytes(v: &Vec<u8>) -> (r: Vec<u8>)
    ensures
        r@ == v@,
{
    let r = v.clone();
    proof {
        assert(r@ =~= v@);
    }
    r
}

pub fn clone_opt_bytes(o: &Option<Vec<u8>>) -> (r: Option<Vec<u8>>)
    ensures
        opt_bytes_view(r) == opt_bytes_view(*o),
{
    match o {
        Some(v) => Some(clone_bytes(v)),
        None => None,
    }
}

fn opt_bytes_eq(a: &Option<Vec<u8>>, b: &Option<Vec<u8>>) -> (r: bool)
    ensures
        r == (opt_bytes_view(*a) == opt_bytes_view(*b)),
{
    match (a, b) {
        (None, None) => true,
        (Some(x), Some(y)) => bytes_eq(x, y),
        _ => false,
    }
}

fn opt_u64_eq(a: &Option<u64>, b: &Option<u64>) -> (r: bool)
    ensures
        r == (*a == *b),
{
    match (a, b) {
        (None, None) => true,
        (Some(x), Some(y)) => *x == *y,
        _ => false,
    }
}

impl PlayerState {
    /// Structural equality, the change detector of the whole bridge.
    pub fn state_eq(&self, other: &PlayerState) -> (r: bool)
        ensures
            r == (self@ == other@),
    {
        let r = self.playback_status == other.playback_status && opt_bytes_eq(
            &self.title,
            &other.title,
        ) && opt_bytes_eq(&self.artist, &other.artist) && opt_u64_eq(
            &self.duration_ms,
            &other.duration_ms,
        ) && opt_u64_eq(&self.elapsed_ms, &other.elapsed_ms) && opt_bytes_eq(
            &self.art_url,
            &other.art_url,
        );
        r
    }

    pub fn duplicate(&self) -> (r: PlayerState)
        ensures
            r@ == self@,
    {
        PlayerState {
            playback_status: self.playback_status,
            title: clone_opt_bytes(&self.title),
            artist: clone_opt_bytes(&self.artist),
            duration_ms: self.duration_ms,
            elapsed_ms: self.elapsed_ms,
            art_url: clone_opt_bytes(&self.art_url),
        }
    }
}

pub fn clone_opt_state(o: &Option<PlayerState>) -> (r: Option<PlayerState>)
    ensures
        opt_state_view(r) == opt_state_view(*o),
{
    match o {
        Some(s) => Some(s.duplicate()),
        None => None,
    }
}

pub fn opt_state_eq(a: &Option<PlayerState>, b: &Option<PlayerState>) -> (r: bool)
    ensures
        r == (opt_state_view(*a) == opt_state_view(*b)),
{
    match (a, b) {
        (None, None) => true,
        (Some(x), Some(y)) => x.state_eq(y),
        _ => false,
    }
}

/// The facts the `player` idle subsystem watches: transport state,
/// track identity and artwork, leaving out the continuously moving
/// duration and elapsed fields.
pub open spec fn spec_idle_player_proj(s: PlayerStateView) -> PlayerStateView {
    PlayerStateView {
        playback_status: s.playback_status,
        title: s.title,
        artist: s.artist,
        duration_ms: None,
        elapsed_ms: None,
        art_url: s.art_url,
    }
}

/// The facts the `playlist` idle subsystem watches: track identity
/// alone, independent of the transport state.
pub open spec fn spec_idle_playlist_proj(s: PlayerStateView) -> PlayerStateView {
    PlayerStateView {
        playback_status: PlaybackStatus::Paused,
        title: s.title,
        artist: s.artist,
        duration_ms: None,
        elapsed_ms: None,
        art_url: None,
    }
}

/// Projection of a player state onto what the `player` idle subsystem
/// watches.
pub fn get_state_for_idle_player(player_state: &PlayerState) -> (r: PlayerState)
    ensures
        r@ == spec_idle_player_proj(player_state@),
{
    PlayerState {
        playback_status: player_state.playback_status,
        title: clone_opt_bytes(&player_state.title),
        artist: clone_opt_bytes(&player_state.artist),
        duration_ms: None,
        elapsed_ms: None,
        art_url: clone_opt_bytes(&player_state.art_url),
    }
}

/// Projection of a player state onto what the `playlist` idle
/// subsystem watches.
pub fn get_state_for_idle_playlist(player_state: &PlayerState) -> (r: PlayerState)
    ensures
        r@ == spec_idle_playlist_proj(player_state@),
{
    PlayerState {
        playback_status: PlaybackStatus::Paused,
        title: clone_opt_bytes(&player_state.title),
        artist: clone_opt_bytes(&player_state.artist),
        duration_ms: None,
        elapsed_ms: None,
        art_url: None,
    }
}

} // verus!
