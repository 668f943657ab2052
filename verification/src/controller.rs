//! Decisions of the backend controller: the one task that owns the
//! live backend session, polls it, executes queued playback commands
//! and publishes observed state.
//!
//! The process runs the loop (discovery, the calls into the backend,
//! the timed wait on the command channel); this module decides what to
//! publish, what to log and when to switch sessions, and is verified
//! for every outcome those calls can have.

use vstd::prelude::*;

verus! {

use crate::player::PlayerState;
use crate::player::PlayerStateView;
use crate::player::PlaybackStatus;
use crate::player::opt_state_view;
use crate::player::opt_bytes_view;
use crate::player::clone_opt_state;
use crate::player::opt_state_eq;
use crate::text::bytes_eq;

/// What the controller remembers between iterations: the last error it
/// logged for a failed discovery (to log each failure once, not per
/// retry) and the last player state it published (to skip the write
/// lock when nothing changed).
pub struct Controller {
    pub last_connect_err: Option<Vec<u8>>,
    pub last_emitted_player_state: Option<PlayerState>,
}

pub struct ControllerView {
    pub last_connect_err: Option<Seq<u8>>,
    pub last_emitted_player_state: Option<PlayerStateView>,
}

impl View for Controller {
    type V = ControllerView;

    open spec fn view(&self) -> ControllerView {
        ControllerView {
            last_connect_err: opt_bytes_view(self.last_connect_err),
            last_emitted_player_state: opt_state_view(self.last_emitted_player_state),
        }
    }
}

impl Controller {
    pub fn new() -> (r: Controller)
        ensures
            r@ == (ControllerView {
                last_connect_err: None::<Seq<u8>>,
                last_emitted_player_state: None::<PlayerStateView>,
            }),
    {
        Controller { last_connect_err: None, last_emitted_player_state: None }
    }

    /// Publish-if-changed: when the value differs from the last
    /// published one, remembers it and returns the value to write to
    /// the store; when it is structurally equal, returns nothing and
    /// the store (and the write lock) is left alone.
    pub fn try_set_player_state(&mut self, value: Option<PlayerState>) -> (write: Option<
        Option<PlayerState>,
    >)
        ensures
            (final(self)@.last_connect_err == old(self)@.last_connect_err),
            (final(self)@.last_emitted_player_state == opt_state_view(value)),
            (write is Some) == (old(self)@.last_emitted_player_state != opt_state_view(value)),
            (match write {
                Some(w) => opt_state_view(w) == opt_state_view(value),
                None => final(self)@ == old(self)@,
            }),
    {
        if opt_state_eq(&self.last_emitted_player_state, &value) {
            return None;
        }
        let copy = clone_opt_state(&value);
        self.last_emitted_player_state = value;
        Some(copy)
    }

    /// Remembers a discovery failure; true when it should be logged,
    /// that is, when it is not a repeat of the last logged one.
    pub fn on_connect_failure(&mut self, err: Vec<u8>) -> (log: bool)
        ensures
            log == (old(self)@.last_connect_err != Some(err@)),
            final(self)@.last_connect_err == Some(err@),
            final(self)@.last_emitted_player_state == old(self)@.last_emitted_player_state,
    {
        let log = match &self.last_connect_err {
            Some(prev) => !bytes_eq(prev, &err),
            None => true,
        };
        self.last_connect_err = Some(err);
        log
    }

    /// A session was found: discovery failures start logging afresh.
    pub fn on_connected(&mut self)
        ensures
            final(self)@.last_connect_err is None,
            final(self)@.last_emitted_player_state == old(self)@.last_emitted_player_state,
    {
        self.last_connect_err = None;
    }
}

/// While the current session is not playing, the controller looks for
/// another active session that may have taken over.
pub fn needs_session_rescan(status: PlaybackStatus) -> (r: bool)
    ensures
        r == (status != PlaybackStatus::Playing),
{
    status != PlaybackStatus::Playing
}

/// A freshly resolved session replaces the current one only when it is
/// a different session.
pub fn should_switch_session(current_id: &Vec<u8>, found_id: &Vec<u8>) -> (r: bool)
    ensures
        r == (current_id@ != found_id@),
{
    !bytes_eq(current_id, found_id)
}

} // verus!
