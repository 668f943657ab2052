//! The per-connection protocol engine: a transition machine from
//! buffered input bytes and a state snapshot to response bytes and
//! actions.
//!
//! The surrounding process drives it: it feeds socket bytes in with
//! [`Connection::feed`], asks for the next step with [`next_step`],
//! performs the returned action (writing bytes, adjusting the volume,
//! queueing a playback command, entering the idle loop) and reports
//! outcomes back through [`finish_playback`], [`idle_poll`] and
//! [`idle_cancelled`].

use vstd::prelude::*;

verus! {

use crate::text::lit;
use crate::text::lit_bytes;
use crate::text::bytes_eq;
use crate::text::push_bytes;
use crate::text::contains_seq;
use crate::text::contains_bytes;
use crate::text::spec_parse_decimal;
use crate::text::parse_decimal;
use crate::frame::spec_next_line;
use crate::frame::spec_skip_breaks;
use crate::frame::spec_split_command;
use crate::frame::next_line;
use crate::frame::split_command;
use crate::frame::first_break;
use crate::error::MpdCommandError;
use crate::error::spec_safe_command;
use crate::error::safe_command_print;
use crate::error::spec_ack_line;
use crate::error::ack_line;
use crate::player::PlayerState;
use crate::player::PlayerStateView;
use crate::player::opt_state_view;
use crate::player::clone_bytes;
use crate::player::opt_state_eq;
use crate::player::get_state_for_idle_player;
use crate::player::get_state_for_idle_playlist;
use crate::player::spec_idle_player_proj;
use crate::player::spec_idle_playlist_proj;
use crate::store::StateSnapshot;
use crate::store::SnapshotView;
use crate::store::clamp_volume;
use crate::store::clamp_setvol;
use crate::responses::handle_ping;
use crate::responses::handle_commands;
use crate::responses::handle_tagtypes;
use crate::responses::handle_dummy;
use crate::responses::handle_status;
use crate::responses::handle_current_song;
use crate::responses::handle_getvol;
use crate::responses::spec_commands_payload;
use crate::responses::spec_tagtypes_payload;
use crate::responses::spec_status_payload;
use crate::responses::spec_current_song_payload;
use crate::responses::spec_getvol_payload;

/// A playback intent, sent from a connection handler to the backend
/// controller over the command channel; it carries no payload, the
/// controller resolves the session at execution time.
#[derive(Clone, Copy, PartialEq, Eq, Structural, Debug)]
pub enum Command {
    Play,
    Pause,
    Stop,
    Next,
    Prev,
}

/// What a reply asks the process to do to the emulated volume.
#[derive(Clone, Copy, PartialEq, Eq, Structural, Debug)]
pub enum VolumeAction {
    /// Leave the volume alone.
    Keep,
    /// Add the delta and clamp, as one atomic read-modify-write.
    Add(i8),
    /// Store this value.
    Absolute(u8),
}

/// The command-list mode of a connection: either no batch is open, or
/// one is, with its acknowledgement style, its failure flag and the
/// 0-based position of the next command.  The position counter
/// saturates rather than wrap.
#[derive(Clone, Copy, PartialEq, Eq, Structural, Debug)]
pub enum ListState {
    Normal,
    InList { verbose: bool, failed: bool, next_index: u64 },
}

/// Work the engine has handed to the process and not yet seen finished.
#[derive(Debug)]
pub enum PendingWork {
    /// A playback command is being sent on the command channel; the
    /// name is kept for the failure report.
    Playback { name: Vec<u8> },
    /// An idle long-poll is in progress over these subsystems.
    Idle { player: bool, playlist: bool, mixer: bool },
}

pub enum PendingView {
    Playback { name: Seq<u8> },
    Idle { player: bool, playlist: bool, mixer: bool },
}

pub open spec fn pending_view(p: Option<PendingWork>) -> Option<PendingView> {
    match p {
        None => None,
        Some(PendingWork::Playback { name }) => Some(PendingView::Playback { name: name@ }),
        Some(PendingWork::Idle { player, playlist, mixer }) => Some(
            PendingView::Idle { player, playlist, mixer },
        ),
    }
}

/// Per-connection state: the input buffer, the command-list mode, the
/// close flag, work in flight, and the last snapshots each idle
/// subsystem reported.
#[derive(Debug)]
pub struct Connection {
    pub buf: Vec<u8>,
    pub list: ListState,
    pub should_close: bool,
    pub pending: Option<PendingWork>,
    pub last_idle_player_state: Option<PlayerState>,
    pub last_idle_playlist_state: Option<PlayerState>,
    pub last_idle_mixer_state: Option<u8>,
}

pub struct ConnectionView {
    pub buf: Seq<u8>,
    pub list: ListState,
    pub should_close: bool,
    pub pending: Option<PendingView>,
    pub last_idle_player_state: Option<PlayerStateView>,
    pub last_idle_playlist_state: Option<PlayerStateView>,
    pub last_idle_mixer_state: Option<u8>,
}

impl View for Connection {
    type V = ConnectionView;

    open spec fn view(&self) -> ConnectionView {
        ConnectionView {
            buf: self.buf@,
            list: self.list,
            should_close: self.should_close,
            pending: pending_view(self.pending),
            last_idle_player_state: opt_state_view(self.last_idle_player_state),
            last_idle_playlist_state: opt_state_view(self.last_idle_playlist_state),
            last_idle_mixer_state: self.last_idle_mixer_state,
        }
    }
}

pub open spec fn with_buf(c: ConnectionView, buf: Seq<u8>) -> ConnectionView {
    ConnectionView {
        buf,
        list: c.list,
        should_close: c.should_close,
        pending: c.pending,
        last_idle_player_state: c.last_idle_player_state,
        last_idle_playlist_state: c.last_idle_playlist_state,
        last_idle_mixer_state: c.last_idle_mixer_state,
    }
}

pub open spec fn with_list(c: ConnectionView, list: ListState) -> ConnectionView {
    ConnectionView {
        buf: c.buf,
        list,
        should_close: c.should_close,
        pending: c.pending,
        last_idle_player_state: c.last_idle_player_state,
        last_idle_playlist_state: c.last_idle_playlist_state,
        last_idle_mixer_state: c.last_idle_mixer_state,
    }
}

pub open spec fn with_close(c: ConnectionView) -> ConnectionView {
    ConnectionView {
        buf: c.buf,
        list: c.list,
        should_close: true,
        pending: c.pending,
        last_idle_player_state: c.last_idle_player_state,
        last_idle_playlist_state: c.last_idle_playlist_state,
        last_idle_mixer_state: c.last_idle_mixer_state,
    }
}

pub open spec fn with_pending(c: ConnectionView, pending: Option<PendingView>) -> ConnectionView {
    ConnectionView {
        buf: c.buf,
        list: c.list,
        should_close: c.should_close,
        pending,
        last_idle_player_state: c.last_idle_player_state,
        last_idle_playlist_state: c.last_idle_playlist_state,
        last_idle_mixer_state: c.last_idle_mixer_state,
    }
}

pub open spec fn with_idle_player(
    c: ConnectionView,
    v: Option<PlayerStateView>,
) -> ConnectionView {
    ConnectionView {
        buf: c.buf,
        list: c.list,
        should_close: c.should_close,
        pending: c.pending,
        last_idle_player_state: v,
        last_idle_playlist_state: c.last_idle_playlist_state,
        last_idle_mixer_state: c.last_idle_mixer_state,
    }
}

pub open spec fn with_idle_playlist(
    c: ConnectionView,
    v: Option<PlayerStateView>,
) -> ConnectionView {
    ConnectionView {
        buf: c.buf,
        list: c.list,
        should_close: c.should_close,
        pending: c.pending,
        last_idle_player_state: c.last_idle_player_state,
        last_idle_playlist_state: v,
        last_idle_mixer_state: c.last_idle_mixer_state,
    }
}

pub open spec fn with_idle_mixer(c: ConnectionView, v: Option<u8>) -> ConnectionView {
    ConnectionView {
        buf: c.buf,
        list: c.list,
        should_close: c.should_close,
        pending: c.pending,
        last_idle_player_state: c.last_idle_player_state,
        last_idle_playlist_state: c.last_idle_playlist_state,
        last_idle_mixer_state: v,
    }
}

impl Connection {
    /// A fresh connection: empty buffer, no batch open, nothing seen by
    /// idle yet.
    pub fn new() -> (r: Connection)
        ensures
            r@ == (ConnectionView {
                buf: Seq::<u8>::empty(),
                list: ListState::Normal,
                should_close: false,
                pending: None::<PendingView>,
                last_idle_player_state: None::<PlayerStateView>,
                last_idle_playlist_state: None::<PlayerStateView>,
                last_idle_mixer_state: None::<u8>,
            }),
    {
        let r = Connection {
            buf: Vec::new(),
            list: ListState::Normal,
            should_close: false,
            pending: None,
            last_idle_player_state: None,
            last_idle_playlist_state: None,
            last_idle_mixer_state: None,
        };
        proof {
            assert(r@.buf =~= Seq::<u8>::empty());
        }
        r
    }

    /// Appends one socket read to the input buffer.
    pub fn feed(&mut self, data: &[u8])
        ensures
            final(self)@ == with_buf(old(self)@, old(self)@.buf + data@),
    {
        push_bytes(&mut self.buf, data);
    }
}

/// The outcome of dispatching one command, before command-list
/// bookkeeping and acknowledgement tokens are applied.
pub enum CmdResult {
    /// The command succeeded with this payload and volume effect.
    Done { payload: Vec<u8>, volume: VolumeAction },
    /// The command failed; an ACK line will be emitted.
    Failed { err: MpdCommandError },
    /// The explicit disconnect command.
    Close,
    /// A batch opens.
    ListBegin { verbose: bool },
    /// A batch closes.
    ListEnd,
    /// A playback command to queue for the controller.
    Playback { name: Vec<u8>, command: Command, fallback_pause: bool },
    /// An idle long-poll begins over these subsystems.
    Idle { player: bool, playlist: bool, mixer: bool },
}

pub enum CmdResultView {
    Done { payload: Seq<u8>, volume: VolumeAction },
    Failed { code: u8, name: Seq<u8>, message: Seq<u8> },
    Close,
    ListBegin { verbose: bool },
    ListEnd,
    Playback { name: Seq<u8>, command: Command, fallback_pause: bool },
    Idle { player: bool, playlist: bool, mixer: bool },
}

pub open spec fn cmd_result_view(r: CmdResult) -> CmdResultView {
    match r {
        CmdResult::Done { payload, volume } => CmdResultView::Done { payload: payload@, volume },
        CmdResult::Failed { err } => CmdResultView::Failed {
            code: err.mpd_error_code,
            name: err.command_str@,
            message: err.message@,
        },
        CmdResult::Close => CmdResultView::Close,
        CmdResult::ListBegin { verbose } => CmdResultView::ListBegin { verbose },
        CmdResult::ListEnd => CmdResultView::ListEnd,
        CmdResult::Playback { name, command, fallback_pause } => CmdResultView::Playback {
            name: name@,
            command,
            fallback_pause,
        },
        CmdResult::Idle { player, playlist, mixer } => CmdResultView::Idle {
            player,
            playlist,
            mixer,
        },
    }
}

/// Bytes to write back for one step, with its side effects: a volume
/// action to perform, whether to close the connection, and whether to
/// stop working through the buffered input until the next read.
pub struct Reply {
    pub out: Vec<u8>,
    pub volume: VolumeAction,
    pub close: bool,
    pub stop: bool,
}

pub struct ReplySpec {
    pub out: Seq<u8>,
    pub volume: VolumeAction,
    pub close: bool,
    pub stop: bool,
}

impl View for Reply {
    type V = ReplySpec;

    open spec fn view(&self) -> ReplySpec {
        ReplySpec { out: self.out@, volume: self.volume, close: self.close, stop: self.stop }
    }
}

/// What the process must do next for a connection.
pub enum Step {
    /// No complete command is buffered: read from the socket.
    NeedInput,
    /// Write the reply and act on its flags.
    Reply(Reply),
    /// Queue the playback command on the command channel; when sending
    /// a Stop fails, retry once as Pause; then call `finish_playback`.
    Playback { command: Command, fallback_pause: bool },
    /// Enter the idle loop: alternate `idle_poll` with short bounded
    /// reads of the socket, cancelling via `idle_cancelled` when the
    /// client sends `noidle`.
    StartIdle,
}

pub enum StepSpec {
    NeedInput,
    Reply(ReplySpec),
    Playback { command: Command, fallback_pause: bool },
    StartIdle,
}

pub open spec fn step_view(s: Step) -> StepSpec {
    match s {
        Step::NeedInput => StepSpec::NeedInput,
        Step::Reply(r) => StepSpec::Reply(r@),
        Step::Playback { command, fallback_pause } => StepSpec::Playback {
            command,
            fallback_pause,
        },
        Step::StartIdle => StepSpec::StartIdle,
    }
}

/// Inside a failed batch every command but the batch close is swallowed
/// without effect or output.
pub open spec fn spec_swallowed(list: ListState, name: Seq<u8>) -> bool {
    &&& list matches ListState::InList { failed: true, .. }
    &&& name != lit("command_list_end")
}

/// The command-list position an error is reported at.
pub open spec fn spec_list_pos(list: ListState) -> nat {
    match list {
        ListState::Normal => 0,
        ListState::InList { next_index, .. } => next_index as nat,
    }
}

/// After an accepted command inside a batch the position advances.
pub open spec fn spec_list_bump(list: ListState) -> ListState {
    match list {
        ListState::Normal => ListState::Normal,
        ListState::InList { verbose, failed, next_index } => ListState::InList {
            verbose,
            failed,
            next_index: if next_index == u64::MAX {
                next_index
            } else {
                (next_index + 1) as u64
            },
        },
    }
}

/// A failure inside a batch marks the batch failed.
pub open spec fn spec_list_fail(list: ListState) -> ListState {
    match list {
        ListState::Normal => ListState::Normal,
        ListState::InList { verbose, failed, next_index } => ListState::InList {
            verbose,
            failed: true,
            next_index,
        },
    }
}

/// A successful command's payload followed by its acknowledgement:
/// `OK` outside a batch, `list_OK` inside a verbose batch, nothing
/// inside a silent batch (the batch close answers for the whole).
pub open spec fn spec_success_wrap(payload: Seq<u8>, list: ListState) -> Seq<u8> {
    match list {
        ListState::Normal => payload + lit("OK\n"),
        ListState::InList { verbose, .. } => if verbose {
            payload + lit("list_OK\n")
        } else {
            payload
        },
    }
}

fn list_bump(list: ListState) -> (r: ListState)
    ensures
        r == spec_list_bump(list),
{
    match list {
        ListState::Normal => ListState::Normal,
        ListState::InList { verbose, failed, next_index } => ListState::InList {
            verbose,
            failed,
            next_index: if next_index == u64::MAX {
                next_index
            } else {
                next_index + 1
            },
        },
    }
}

fn success_wrap(payload: Vec<u8>, list: ListState) -> (r: Vec<u8>)
    ensures
        r@ == spec_success_wrap(payload@, list),
{
    let mut out = payload;
    match list {
        ListState::Normal => {
            push_bytes(&mut out, lit_bytes("OK\n").as_slice());
        },
        ListState::InList { verbose, .. } => {
            if verbose {
                push_bytes(&mut out, lit_bytes("list_OK\n").as_slice());
            }
        },
    }
    out
}

/// Dispatch of the relative volume command: the argument is a decimal
/// delta within `-127 ..= 127`, added to the volume and clamped.
pub open spec fn spec_volume_result(args: Seq<u8>) -> CmdResultView {
    match spec_parse_decimal(args) {
        Some(v) => if -127 <= v <= 127 {
            CmdResultView::Done {
                payload: Seq::<u8>::empty(),
                volume: VolumeAction::Add(v as i8),
            }
        } else {
            CmdResultView::Failed {
                code: 5,
                name: lit("volume"),
                message: lit("invalid volume delta"),
            }
        },
        None => CmdResultView::Failed {
            code: 5,
            name: lit("volume"),
            message: lit("invalid volume delta"),
        },
    }
}

/// Parses and dispatches `volume <delta>`.
pub fn handle_volume(arguments: &Vec<u8>) -> (r: CmdResult)
    ensures
        cmd_result_view(r) == spec_volume_result(arguments@),
{
    proof {
        vstd::utf8::encode_utf8_valid_utf8("volume"@);
    }
    match parse_decimal(arguments) {
        Some(v) => {
            if -127 <= v && v <= 127 {
                CmdResult::Done { payload: Vec::new(), volume: VolumeAction::Add(v as i8) }
            } else {
                CmdResult::Failed {
                    err: MpdCommandError::new(
                        &lit_bytes("volume"),
                        lit_bytes("invalid volume delta"),
                    ),
                }
            }
        },
        None => CmdResult::Failed {
            err: MpdCommandError::new(&lit_bytes("volume"), lit_bytes("invalid volume delta")),
        },
    }
}

/// Dispatch of the absolute volume command: the argument is a decimal
/// value, clamped into `0 ..= 100`.
pub open spec fn spec_setvol_result(args: Seq<u8>) -> CmdResultView {
    match spec_parse_decimal(args) {
        Some(v) => CmdResultView::Done {
            payload: Seq::<u8>::empty(),
            volume: VolumeAction::Absolute(clamp_volume(v)),
        },
        None => CmdResultView::Failed {
            code: 5,
            name: lit("setvol"),
            message: lit("invalid setvol value"),
        },
    }
}

/// Parses and dispatches `setvol <value>`.
pub fn handle_setvol(arguments: &Vec<u8>) -> (r: CmdResult)
    ensures
        cmd_result_view(r) == spec_setvol_result(arguments@),
{
    proof {
        vstd::utf8::encode_utf8_valid_utf8("setvol"@);
    }
    match parse_decimal(arguments) {
        Some(v) => CmdResult::Done { payload: Vec::new(), volume: VolumeAction::Absolute(clamp_setvol(v)) },
        None => CmdResult::Failed {
            err: MpdCommandError::new(&lit_bytes("setvol"), lit_bytes("invalid setvol value")),
        },
    }
}

/// Dispatch of the idle command: the argument names the watched
/// subsystems; an empty argument watches all three, an argument naming
/// none of them is an error.
pub open spec fn spec_idle_request(args: Seq<u8>) -> CmdResultView {
    let all = args.len() == 0;
    let player = all || contains_seq(args, lit("player"));
    let playlist = all || contains_seq(args, lit("playlist"));
    let mixer = all || contains_seq(args, lit("mixer"));
    if !player && !playlist && !mixer {
        CmdResultView::Failed {
            code: 5,
            name: lit("idle"),
            message: lit("No supported subsystem in ") + spec_safe_command(args),
        }
    } else {
        CmdResultView::Idle { player, playlist, mixer }
    }
}

fn idle_request(arguments: &Vec<u8>) -> (r: CmdResult)
    ensures
        cmd_result_view(r) == spec_idle_request(arguments@),
{
    proof {
        vstd::utf8::encode_utf8_valid_utf8("idle"@);
    }
    let all = arguments.len() == 0;
    let player = all || contains_bytes(arguments, &lit_bytes("player"));
    let playlist = all || contains_bytes(arguments, &lit_bytes("playlist"));
    let mixer = all || contains_bytes(arguments, &lit_bytes("mixer"));
    if !player && !playlist && !mixer {
        let mut message = lit_bytes("No supported subsystem in ");
        let safe = safe_command_print(arguments);
        push_bytes(&mut message, safe.as_slice());
        CmdResult::Failed { err: MpdCommandError::new(&lit_bytes("idle"), message) }
    } else {
        CmdResult::Idle { player, playlist, mixer }
    }
}

/// Reports an unrecognised command as an error carrying its name.
pub fn handle_unknown_command(command: &Vec<u8>) -> (r: MpdCommandError)
    ensures
        r.command_str@ == spec_safe_command(command@),
        r.message@ == lit("Unknown command: ") + spec_safe_command(command@),
        r.mpd_error_code == 5,
{
    let mut message = lit_bytes("Unknown command: ");
    let safe = safe_command_print(command);
    push_bytes(&mut message, safe.as_slice());
    MpdCommandError::new(command, message)
}

/// The outcome of one command, given its name, its arguments and the
/// snapshot it may read.  Health commands are static; playback commands
/// become queued intents; the reads take the snapshot; the batch and
/// close commands steer the connection; anything unknown is an error.
pub open spec fn spec_run_command(
    name: Seq<u8>,
    args: Seq<u8>,
    snap: SnapshotView,
) -> CmdResultView {
    if name == lit("ping") {
        CmdResultView::Done { payload: Seq::<u8>::empty(), volume: VolumeAction::Keep }
    } else if name == lit("commands") {
        CmdResultView::Done { payload: spec_commands_payload(), volume: VolumeAction::Keep }
    } else if name == lit("tagtypes") {
        CmdResultView::Done { payload: spec_tagtypes_payload(), volume: VolumeAction::Keep }
    } else if name == lit("play") {
        CmdResultView::Playback { name, command: Command::Play, fallback_pause: false }
    } else if name == lit("pause") {
        if args == lit("1") || args == lit("\"1\"") || args.len() == 0 {
            CmdResultView::Playback { name, command: Command::Pause, fallback_pause: false }
        } else {
            // A pause with any other argument asks to resume.
            CmdResultView::Playback { name, command: Command::Play, fallback_pause: false }
        }
    } else if name == lit("stop") {
        CmdResultView::Playback { name, command: Command::Stop, fallback_pause: true }
    } else if name == lit("next") {
        CmdResultView::Playback { name, command: Command::Next, fallback_pause: false }
    } else if name == lit("previous") {
        CmdResultView::Playback { name, command: Command::Prev, fallback_pause: false }
    } else if name == lit("currentsong") {
        CmdResultView::Done { payload: spec_current_song_payload(snap), volume: VolumeAction::Keep }
    } else if name == lit("status") {
        CmdResultView::Done { payload: spec_status_payload(snap), volume: VolumeAction::Keep }
    } else if name == lit("idle") {
        spec_idle_request(args)
    } else if name == lit("command_list_begin") {
        CmdResultView::ListBegin { verbose: false }
    } else if name == lit("command_list_ok_begin") {
        CmdResultView::ListBegin { verbose: true }
    } else if name == lit("command_list_end") {
        CmdResultView::ListEnd
    } else if name == lit("playlistinfo") || name == lit("lsinfo") || name == lit("stats") || name
        == lit("noidle") {
        CmdResultView::Done { payload: Seq::<u8>::empty(), volume: VolumeAction::Keep }
    } else if name == lit("close") {
        CmdResultView::Close
    } else if name == lit("volume") {
        spec_volume_result(args)
    } else if name == lit("setvol") {
        spec_setvol_result(args)
    } else if name == lit("getvol") {
        CmdResultView::Done { payload: spec_getvol_payload(snap.volume), volume: VolumeAction::Keep }
    } else {
        CmdResultView::Failed {
            code: 5,
            name: spec_safe_command(name),
            message: lit("Unknown command: ") + spec_safe_command(name),
        }
    }
}

/// Dispatches one split command against a snapshot.
pub fn handle_mpd_query(name: &Vec<u8>, args: &Vec<u8>, snap: &StateSnapshot) -> (r: CmdResult)
    ensures
        cmd_result_view(r) == spec_run_command(name@, args@, snap@),
{
    if bytes_eq(name, &lit_bytes("ping")) {
        CmdResult::Done { payload: handle_ping(), volume: VolumeAction::Keep }
    } else if bytes_eq(name, &lit_bytes("commands")) {
        CmdResult::Done { payload: handle_commands(), volume: VolumeAction::Keep }
    } else if bytes_eq(name, &lit_bytes("tagtypes")) {
        CmdResult::Done { payload: handle_tagtypes(), volume: VolumeAction::Keep }
    } else if bytes_eq(name, &lit_bytes("play")) {
        CmdResult::Playback { name: clone_bytes(name), command: Command::Play, fallback_pause: false }
    } else if bytes_eq(name, &lit_bytes("pause")) {
        if bytes_eq(args, &lit_bytes("1")) || bytes_eq(args, &lit_bytes("\"1\"")) || args.len()
            == 0 {
            CmdResult::Playback {
                name: clone_bytes(name),
                command: Command::Pause,
                fallback_pause: false,
            }
        } else {
            CmdResult::Playback {
                name: clone_bytes(name),
                command: Command::Play,
                fallback_pause: false,
            }
        }
    } else if bytes_eq(name, &lit_bytes("stop")) {
        CmdResult::Playback { name: clone_bytes(name), command: Command::Stop, fallback_pause: true }
    } else if bytes_eq(name, &lit_bytes("next")) {
        CmdResult::Playback { name: clone_bytes(name), command: Command::Next, fallback_pause: false }
    } else if bytes_eq(name, &lit_bytes("previous")) {
        CmdResult::Playback { name: clone_bytes(name), command: Command::Prev, fallback_pause: false }
    } else if bytes_eq(name, &lit_bytes("currentsong")) {
        CmdResult::Done { payload: handle_current_song(snap), volume: VolumeAction::Keep }
    } else if bytes_eq(name, &lit_bytes("status")) {
        CmdResult::Done { payload: handle_status(snap), volume: VolumeAction::Keep }
    } else if bytes_eq(name, &lit_bytes("idle")) {
        idle_request(args)
    } else if bytes_eq(name, &lit_bytes("command_list_begin")) {
        CmdResult::ListBegin { verbose: false }
    } else if bytes_eq(name, &lit_bytes("command_list_ok_begin")) {
        CmdResult::ListBegin { verbose: true }
    } else if bytes_eq(name, &lit_bytes("command_list_end")) {
        CmdResult::ListEnd
    } else if bytes_eq(name, &lit_bytes("playlistinfo")) {
        CmdResult::Done { payload: handle_dummy("playlistinfo"), volume: VolumeAction::Keep }
    } else if bytes_eq(name, &lit_bytes("lsinfo")) {
        CmdResult::Done { payload: handle_dummy("lsinfo"), volume: VolumeAction::Keep }
    } else if bytes_eq(name, &lit_bytes("stats")) {
        CmdResult::Done { payload: handle_dummy("stats"), volume: VolumeAction::Keep }
    } else if bytes_eq(name, &lit_bytes("noidle")) {
        CmdResult::Done { payload: handle_dummy("noidle"), volume: VolumeAction::Keep }
    } else if bytes_eq(name, &lit_bytes("close")) {
        CmdResult::Close
    } else if bytes_eq(name, &lit_bytes("volume")) {
        handle_volume(args)
    } else if bytes_eq(name, &lit_bytes("setvol")) {
        handle_setvol(args)
    } else if bytes_eq(name, &lit_bytes("getvol")) {
        CmdResult::Done { payload: handle_getvol(snap.volume), volume: VolumeAction::Keep }
    } else {
        CmdResult::Failed { err: handle_unknown_command(name) }
    }
}

/// How a command outcome changes the connection and what it answers:
/// successes are wrapped with their acknowledgement token and advance
/// the batch position; failures become one ACK line at the current
/// position, mark the batch failed, and stop this read's processing;
/// the batch commands steer the list state; playback and idle hand work
/// to the process.
pub open spec fn spec_apply(c: ConnectionView, res: CmdResultView) -> (StepSpec, ConnectionView) {
    match res {
        CmdResultView::Done { payload, volume } => (
            StepSpec::Reply(
                ReplySpec {
                    out: spec_success_wrap(payload, c.list),
                    volume,
                    close: false,
                    stop: false,
                },
            ),
            with_list(c, spec_list_bump(c.list)),
        ),
        CmdResultView::Failed { code, name, message } => (
            StepSpec::Reply(
                ReplySpec {
                    out: spec_ack_line(code, spec_list_pos(c.list), name, message),
                    volume: VolumeAction::Keep,
                    close: false,
                    stop: true,
                },
            ),
            with_list(c, spec_list_fail(c.list)),
        ),
        CmdResultView::Close => (
            StepSpec::Reply(
                ReplySpec {
                    out: Seq::<u8>::empty(),
                    volume: VolumeAction::Keep,
                    close: true,
                    stop: true,
                },
            ),
            with_close(c),
        ),
        CmdResultView::ListBegin { verbose } => (
            StepSpec::Reply(
                ReplySpec {
                    out: Seq::<u8>::empty(),
                    volume: VolumeAction::Keep,
                    close: false,
                    stop: false,
                },
            ),
            with_list(c, ListState::InList { verbose, failed: false, next_index: 0 }),
        ),
        CmdResultView::ListEnd => (
            StepSpec::Reply(
                ReplySpec {
                    out: (match c.list {
                        ListState::Normal => lit("OK\n"),
                        ListState::InList { failed, .. } => if failed {
                            Seq::<u8>::empty()
                        } else {
                            lit("OK\n")
                        },
                    }),
                    volume: VolumeAction::Keep,
                    close: false,
                    stop: false,
                },
            ),
            with_list(c, ListState::Normal),
        ),
        CmdResultView::Playback { name, command, fallback_pause } => (
            StepSpec::Playback { command, fallback_pause },
            with_pending(c, Some(PendingView::Playback { name })),
        ),
        CmdResultView::Idle { player, playlist, mixer } => (
            StepSpec::StartIdle,
            with_pending(c, Some(PendingView::Idle { player, playlist, mixer })),
        ),
    }
}

/// Wraps a success: payload plus acknowledgement token, batch position
/// advanced.
fn wrap_success(conn: &mut Connection, payload: Vec<u8>, volume: VolumeAction) -> (r: Reply)
    ensures
        (StepSpec::Reply(r@), final(conn)@) == spec_apply(
            old(conn)@,
            CmdResultView::Done { payload: payload@, volume },
        ),
{
    let out = success_wrap(payload, conn.list);
    conn.list = list_bump(conn.list);
    Reply { out, volume, close: false, stop: false }
}

/// Wraps a failure: one ACK line at the current batch position, the
/// batch marked failed, processing stopped for this read.
fn wrap_failure(conn: &mut Connection, err: MpdCommandError) -> (r: Reply)
    ensures
        (StepSpec::Reply(r@), final(conn)@) == spec_apply(
            old(conn)@,
            CmdResultView::Failed {
                code: err.mpd_error_code,
                name: err.command_str@,
                message: err.message@,
            },
        ),
{
    let pos: u64 = match conn.list {
        ListState::Normal => 0,
        ListState::InList { next_index, .. } => next_index,
    };
    let out = ack_line(&err, pos);
    conn.list = match conn.list {
        ListState::Normal => ListState::Normal,
        ListState::InList { verbose, failed, next_index } => ListState::InList {
            verbose,
            failed: true,
            next_index,
        },
    };
    Reply { out, volume: VolumeAction::Keep, close: false, stop: true }
}

fn apply_result(conn: &mut Connection, res: CmdResult) -> (r: Step)
    ensures
        (step_view(r), final(conn)@) == spec_apply(old(conn)@, cmd_result_view(res)),
{
    match res {
        CmdResult::Done { payload, volume } => Step::Reply(wrap_success(conn, payload, volume)),
        CmdResult::Failed { err } => Step::Reply(wrap_failure(conn, err)),
        CmdResult::Close => {
            conn.should_close = true;
            Step::Reply(
                Reply {
                    out: Vec::new(),
                    volume: VolumeAction::Keep,
                    close: true,
                    stop: true,
                },
            )
        },
        CmdResult::ListBegin { verbose } => {
            conn.list = ListState::InList { verbose, failed: false, next_index: 0 };
            Step::Reply(
                Reply {
                    out: Vec::new(),
                    volume: VolumeAction::Keep,
                    close: false,
                    stop: false,
                },
            )
        },
        CmdResult::ListEnd => {
            let out = match conn.list {
                ListState::Normal => lit_bytes("OK\n"),
                ListState::InList { failed, .. } => {
                    if failed {
                        Vec::new()
                    } else {
                        lit_bytes("OK\n")
                    }
                },
            };
            conn.list = ListState::Normal;
            Step::Reply(Reply { out, volume: VolumeAction::Keep, close: false, stop: false })
        },
        CmdResult::Playback { name, command, fallback_pause } => {
            conn.pending = Some(PendingWork::Playback { name });
            Step::Playback { command, fallback_pause }
        },
        CmdResult::Idle { player, playlist, mixer } => {
            conn.pending = Some(PendingWork::Idle { player, playlist, mixer });
            Step::StartIdle
        },
    }
}

/// One step of a connection: the next buffered command line is framed,
/// dispatched against the snapshot, and its outcome applied to the
/// connection, honouring the failed-batch swallowing rule.
pub open spec fn spec_next_step(c: ConnectionView, snap: SnapshotView) -> (StepSpec, ConnectionView) {
    match spec_next_line(c.buf) {
        None => (StepSpec::NeedInput, with_buf(c, spec_skip_breaks(c.buf))),
        Some((line, rest)) => {
            let c1 = with_buf(c, rest);
            let (name, args) = spec_split_command(line);
            if spec_swallowed(c.list, name) {
                (
                    StepSpec::Reply(
                        ReplySpec {
                            out: Seq::<u8>::empty(),
                            volume: VolumeAction::Keep,
                            close: false,
                            stop: false,
                        },
                    ),
                    c1,
                )
            } else {
                spec_apply(c1, spec_run_command(name, args, snap))
            }
        },
    }
}

/// Frames and runs the next buffered command, if a complete one is
/// there.
pub fn next_step(conn: &mut Connection, snap: &StateSnapshot) -> (r: Step)
    requires
        (old(conn)@.pending is None),
    ensures
        (step_view(r), final(conn)@) == spec_next_step(old(conn)@, snap@),
{
    let line = match next_line(&mut conn.buf) {
        None => {
            return Step::NeedInput;
        },
        Some(l) => l,
    };
    let (name, args) = split_command(&line);
    let swallowed = match conn.list {
        ListState::InList { failed, .. } => failed && !bytes_eq(
            &name,
            &lit_bytes("command_list_end"),
        ),
        _ => false,
    };
    if swallowed {
        return Step::Reply(
            Reply { out: Vec::new(), volume: VolumeAction::Keep, close: false, stop: false },
        );
    }
    let res = handle_mpd_query(&name, &args, snap);
    apply_result(conn, res)
}

/// The reply owed after the process tried to queue a playback command:
/// an empty success when the send went through, the failure ACK when
/// the channel was closed.
pub open spec fn spec_finish_playback(c: ConnectionView, sent: bool) -> (StepSpec, ConnectionView) {
    match c.pending {
        Some(PendingView::Playback { name }) => {
            let c1 = with_pending(c, None);
            if sent {
                spec_apply(
                    c1,
                    CmdResultView::Done { payload: Seq::<u8>::empty(), volume: VolumeAction::Keep },
                )
            } else {
                spec_apply(
                    c1,
                    CmdResultView::Failed {
                        code: 5,
                        name: spec_safe_command(name),
                        message: lit("failed to queue playback command"),
                    },
                )
            }
        },
        _ => (StepSpec::NeedInput, c),
    }
}

/// Completes a playback dispatch after the send attempt.
pub fn finish_playback(conn: &mut Connection, sent: bool) -> (r: Reply)
    requires
        (old(conn)@.pending matches Some(PendingView::Playback { .. })),
    ensures
        (StepSpec::Reply(r@), final(conn)@) == spec_finish_playback(old(conn)@, sent),
{
    let name = match &conn.pending {
        Some(PendingWork::Playback { name }) => clone_bytes(name),
        _ => vstd::pervasive::unreached(),
    };
    conn.pending = None;
    if sent {
        wrap_success(conn, Vec::new(), VolumeAction::Keep)
    } else {
        let err = MpdCommandError::new(&name, lit_bytes("failed to queue playback command"));
        wrap_failure(conn, err)
    }
}

/// The idle projections of a snapshot's player state.
pub open spec fn spec_cur_player_proj(snap: SnapshotView) -> Option<PlayerStateView> {
    match snap.player {
        Some(p) => Some(spec_idle_player_proj(p)),
        None => None,
    }
}

pub open spec fn spec_cur_playlist_proj(snap: SnapshotView) -> Option<PlayerStateView> {
    match snap.player {
        Some(p) => Some(spec_idle_playlist_proj(p)),
        None => None,
    }
}

/// One check of an idle long-poll: the watched subsystems are compared
/// in a fixed order (player, playlist, mixer) against what this
/// connection last reported; the first difference wins, its snapshot is
/// updated, and a `changed:` line is answered.  `None` means nothing
/// changed and the poll goes on.
pub open spec fn spec_idle_poll(c: ConnectionView, snap: SnapshotView) -> Option<
    (ReplySpec, ConnectionView),
> {
    match c.pending {
        Some(PendingView::Idle { player, playlist, mixer }) => {
            if player && spec_cur_player_proj(snap) != c.last_idle_player_state {
                let c1 = with_pending(
                    with_idle_player(c, spec_cur_player_proj(snap)),
                    None,
                );
                Some(spec_reply_of(spec_apply(
                    c1,
                    CmdResultView::Done {
                        payload: lit("changed: player\n"),
                        volume: VolumeAction::Keep,
                    },
                )))
            } else if playlist && spec_cur_playlist_proj(snap) != c.last_idle_playlist_state {
                let c1 = with_pending(
                    with_idle_playlist(c, spec_cur_playlist_proj(snap)),
                    None,
                );
                Some(spec_reply_of(spec_apply(
                    c1,
                    CmdResultView::Done {
                        payload: lit("changed: playlist\n"),
                        volume: VolumeAction::Keep,
                    },
                )))
            } else if mixer && Some(snap.volume) != c.last_idle_mixer_state {
                let c1 = with_pending(with_idle_mixer(c, Some(snap.volume)), None);
                Some(spec_reply_of(spec_apply(
                    c1,
                    CmdResultView::Done {
                        payload: lit("changed: mixer\n"),
                        volume: VolumeAction::Keep,
                    },
                )))
            } else {
                None
            }
        },
        _ => None,
    }
}

/// Projects the reply out of an applied step (idle outcomes are always
/// replies).
pub open spec fn spec_reply_of(sc: (StepSpec, ConnectionView)) -> (ReplySpec, ConnectionView) {
    (
        (match sc.0 {
            StepSpec::Reply(r) => r,
            _ => ReplySpec {
                out: Seq::<u8>::empty(),
                volume: VolumeAction::Keep,
                close: false,
                stop: false,
            },
        }),
        sc.1,
    )
}

/// One poll of an idle long-poll against the current snapshot.
pub fn idle_poll(conn: &mut Connection, snap: &StateSnapshot) -> (r: Option<Reply>)
    requires
        (old(conn)@.pending matches Some(PendingView::Idle { .. })),
    ensures
        (match r {
            None => final(conn)@ == old(conn)@ && spec_idle_poll(old(conn)@, snap@) is None,
            Some(rep) => spec_idle_poll(old(conn)@, snap@) == Some((rep@, final(conn)@)),
        }),
{
    let (player, playlist, mixer) = match &conn.pending {
        Some(PendingWork::Idle { player, playlist, mixer }) => (*player, *playlist, *mixer),
        _ => vstd::pervasive::unreached(),
    };
    if player {
        let cur = match &snap.player {
            Some(p) => Some(get_state_for_idle_player(p)),
            None => None,
        };
        if !opt_state_eq(&cur, &conn.last_idle_player_state) {
            conn.last_idle_player_state = cur;
            conn.pending = None;
            return Some(wrap_success(conn, lit_bytes("changed: player\n"), VolumeAction::Keep));
        }
    }
    if playlist {
        let cur = match &snap.player {
            Some(p) => Some(get_state_for_idle_playlist(p)),
            None => None,
        };
        if !opt_state_eq(&cur, &conn.last_idle_playlist_state) {
            conn.last_idle_playlist_state = cur;
            conn.pending = None;
            return Some(wrap_success(conn, lit_bytes("changed: playlist\n"), VolumeAction::Keep));
        }
    }
    if mixer {
        let cur = Some(snap.volume);
        let changed = match conn.last_idle_mixer_state {
            Some(v) => v != snap.volume,
            None => true,
        };
        if changed {
            conn.last_idle_mixer_state = cur;
            conn.pending = None;
            return Some(wrap_success(conn, lit_bytes("changed: mixer\n"), VolumeAction::Keep));
        }
    }
    None
}

/// The reply owed when the client cancels an idle with `noidle`: an
/// empty success.
pub open spec fn spec_idle_cancelled(c: ConnectionView) -> (StepSpec, ConnectionView) {
    spec_apply(
        with_pending(c, None),
        CmdResultView::Done { payload: Seq::<u8>::empty(), volume: VolumeAction::Keep },
    )
}

/// Ends an idle long-poll on client cancellation.
pub fn idle_cancelled(conn: &mut Connection) -> (r: Reply)
    requires
        (old(conn)@.pending matches Some(PendingView::Idle { .. })),
    ensures
        (StepSpec::Reply(r@), final(conn)@) == spec_idle_cancelled(old(conn)@),
{
    conn.pending = None;
    wrap_success(conn, Vec::new(), VolumeAction::Keep)
}

/// True when bytes read during an idle wait begin with a complete
/// `noidle` line: the out-of-band cancel.
pub open spec fn spec_is_noidle(s: Seq<u8>) -> bool {
    first_break(s) < s.len() && s.take(first_break(s)) == lit("noidle")
}

/// Recognises the out-of-band `noidle` cancel in bytes read while
/// idling.
#[verifier::loop_isolation(false)]
pub fn is_noidle(data: &Vec<u8>) -> (r: bool)
    ensures
        r == spec_is_noidle(data@),
{
    let n = data.len();
    let mut i: usize = 0;
    while i < n && data[i] != 0x0a && data[i] != 0x0d
        invariant
            i <= n,
            forall|j: int| 0 <= j < i ==> !crate::frame::is_line_break(#[trigger] data@[j]),
        decreases n - i,
    {
        i = i + 1;
    }
    proof {
        crate::frame::lemma_first_break_at(data@, i as int);
    }
    if i == n {
        return false;
    }
    let prefix = vstd::slice::slice_to_vec(vstd::slice::slice_subrange(data.as_slice(), 0, i));
    proof {
        assert(data@.subrange(0, i as int) =~= data@.take(i as int));
    }
    bytes_eq(&prefix, &lit_bytes("noidle"))
}

} // verus!
