//! The engine's cross-cutting guarantees, stated and proved over the
//! specification model: the shape of every reply, idempotence of the
//! volume report, clamping, the no-player status, the idle engine's
//! change detection, and lost-update freedom of sequential volume
//! increments.

use vstd::prelude::*;

verus! {

use crate::text::lit;
use crate::store::SnapshotView;
use crate::store::clamp_volume;
use crate::player::PlayerStateView;
use crate::player::spec_idle_player_proj;
use crate::player::spec_idle_playlist_proj;
use crate::responses::spec_getvol_payload;
use crate::responses::spec_dummy_status_payload;
use crate::error::spec_ack_line;
use crate::engine::ListState;
use crate::engine::VolumeAction;
use crate::engine::CmdResultView;
use crate::engine::StepSpec;
use crate::engine::ReplySpec;
use crate::engine::ConnectionView;
use crate::engine::PendingView;
use crate::engine::spec_apply;
use crate::engine::with_list;
use crate::engine::spec_run_command;
use crate::engine::spec_next_step;
use crate::engine::with_buf;
use crate::frame::spec_next_line;
use crate::frame::spec_split_command;
use crate::engine::spec_idle_poll;
use crate::engine::spec_cur_player_proj;
use crate::engine::spec_cur_playlist_proj;

/// Distinct ASCII-visible literals have distinct wire forms: UTF-8
/// encoding is injective, as decoding it restores the characters.
proof fn lemma_lits_differ(a: &str, b: &str)
    requires
        a@.len() != b@.len() || (a@.len() > 0 && b@.len() > 0 && a@[0] != b@[0]),
    ensures
        lit(a) != lit(b),
{
    if lit(a) == lit(b) {
        vstd::utf8::encode_utf8_decode_utf8(a@);
        vstd::utf8::encode_utf8_decode_utf8(b@);
    }
}

/// `getvol` dispatches to the volume report, touching nothing.
proof fn lemma_dispatch_getvol(args: Seq<u8>, snap: SnapshotView)
    ensures
        spec_run_command(lit("getvol"), args, snap) == (CmdResultView::Done {
            payload: spec_getvol_payload(snap.volume),
            volume: VolumeAction::Keep,
        }),
{
    reveal_strlit("getvol");
    reveal_strlit("ping");
    reveal_strlit("commands");
    reveal_strlit("tagtypes");
    reveal_strlit("play");
    reveal_strlit("pause");
    reveal_strlit("stop");
    reveal_strlit("next");
    reveal_strlit("previous");
    reveal_strlit("currentsong");
    reveal_strlit("status");
    reveal_strlit("idle");
    reveal_strlit("command_list_begin");
    reveal_strlit("command_list_ok_begin");
    reveal_strlit("command_list_end");
    reveal_strlit("playlistinfo");
    reveal_strlit("lsinfo");
    reveal_strlit("stats");
    reveal_strlit("noidle");
    reveal_strlit("close");
    reveal_strlit("volume");
    reveal_strlit("setvol");
    lemma_lits_differ("getvol", "ping");
    lemma_lits_differ("getvol", "commands");
    lemma_lits_differ("getvol", "tagtypes");
    lemma_lits_differ("getvol", "play");
    lemma_lits_differ("getvol", "pause");
    lemma_lits_differ("getvol", "stop");
    lemma_lits_differ("getvol", "next");
    lemma_lits_differ("getvol", "previous");
    lemma_lits_differ("getvol", "currentsong");
    lemma_lits_differ("getvol", "status");
    lemma_lits_differ("getvol", "idle");
    lemma_lits_differ("getvol", "command_list_begin");
    lemma_lits_differ("getvol", "command_list_ok_begin");
    lemma_lits_differ("getvol", "command_list_end");
    lemma_lits_differ("getvol", "playlistinfo");
    lemma_lits_differ("getvol", "lsinfo");
    lemma_lits_differ("getvol", "stats");
    lemma_lits_differ("getvol", "noidle");
    lemma_lits_differ("getvol", "close");
    lemma_lits_differ("getvol", "volume");
    lemma_lits_differ("getvol", "setvol");
}

/// `status` dispatches to the status payload, touching nothing.
proof fn lemma_dispatch_status(args: Seq<u8>, snap: SnapshotView)
    ensures
        spec_run_command(lit("status"), args, snap) == (CmdResultView::Done {
            payload: crate::responses::spec_status_payload(snap),
            volume: VolumeAction::Keep,
        }),
{
    reveal_strlit("status");
    reveal_strlit("ping");
    reveal_strlit("commands");
    reveal_strlit("tagtypes");
    reveal_strlit("play");
    reveal_strlit("pause");
    reveal_strlit("stop");
    reveal_strlit("next");
    reveal_strlit("previous");
    reveal_strlit("currentsong");
    lemma_lits_differ("status", "ping");
    lemma_lits_differ("status", "commands");
    lemma_lits_differ("status", "tagtypes");
    lemma_lits_differ("status", "play");
    lemma_lits_differ("status", "pause");
    lemma_lits_differ("status", "stop");
    lemma_lits_differ("status", "next");
    lemma_lits_differ("status", "previous");
    lemma_lits_differ("status", "currentsong");
}

/// Law: outside a batch, a dispatched command is answered either by its
/// payload followed by exactly one success token, or by exactly one ACK
/// line at position zero — never by both; and only a failure stops this
/// read's processing.
pub proof fn lemma_single_command_reply(c: ConnectionView, res: CmdResultView)
    requires
        c.list == ListState::Normal,
    ensures
        (res matches CmdResultView::Done { payload, volume } ==> spec_apply(c, res).0
            == StepSpec::Reply(
            ReplySpec { out: payload + lit("OK\n"), volume, close: false, stop: false },
        )),
        (res matches CmdResultView::Failed { code, name, message } ==> spec_apply(c, res).0
            == StepSpec::Reply(
            ReplySpec {
                out: spec_ack_line(code, 0, name, message),
                volume: VolumeAction::Keep,
                close: false,
                stop: true,
            },
        )),
        (res matches CmdResultView::Done { .. } || res matches CmdResultView::Failed { .. })
            ==> spec_apply(c, res).1 == c,
{
}

/// Law: inside a batch, a successful command is followed by the
/// per-item token when the batch is verbose and by nothing when it is
/// silent; either way processing goes on.
pub proof fn lemma_batch_item_acknowledgement(c: ConnectionView, res: CmdResultView)
    requires
        (c.list matches ListState::InList { .. }),
    ensures
        (res matches CmdResultView::Done { payload, volume } ==> spec_apply(c, res).0
            == StepSpec::Reply(
            ReplySpec {
                out: if (c.list matches ListState::InList { verbose: true, .. }) {
                    payload + lit("list_OK\n")
                } else {
                    payload
                },
                volume,
                close: false,
                stop: false,
            },
        )),
{
}

/// Law: the batch close answers one trailing success token exactly when
/// no command of the batch failed, and always returns the connection to
/// the unbatched state.
pub proof fn lemma_batch_close(c: ConnectionView)
    requires
        (c.list matches ListState::InList { .. }),
    ensures
        (c.list matches ListState::InList { failed, .. } ==> spec_apply(c, CmdResultView::ListEnd)
            == (
        StepSpec::Reply(
            ReplySpec {
                out: if failed {
                    Seq::<u8>::empty()
                } else {
                    lit("OK\n")
                },
                volume: VolumeAction::Keep,
                close: false,
                stop: false,
            },
        ),
        with_list(c, ListState::Normal),
        )),
{
}

/// Law: in a failed batch, every command before the batch close is
/// swallowed: consumed from the buffer with no output, no action and no
/// other change.
pub proof fn lemma_failed_batch_swallows(c: ConnectionView, snap: SnapshotView)
    requires
        (c.list matches ListState::InList { failed: true, .. }),
        (spec_next_line(c.buf) is Some),
        spec_split_command((spec_next_line(c.buf)->0).0).0 != lit("command_list_end"),
    ensures
        spec_next_step(c, snap) == (
            StepSpec::Reply(
                ReplySpec {
                    out: Seq::<u8>::empty(),
                    volume: VolumeAction::Keep,
                    close: false,
                    stop: false,
                },
            ),
            with_buf(c, (spec_next_line(c.buf)->0).1),
        ),
{
}

/// Law: `getvol` always answers the current volume and asks for no
/// change to it, so repeating it without an intervening volume command
/// answers the same value.
pub proof fn lemma_getvol_idempotent(args1: Seq<u8>, args2: Seq<u8>, snap: SnapshotView)
    ensures
        spec_run_command(lit("getvol"), args1, snap) == spec_run_command(
            lit("getvol"),
            args2,
            snap,
        ),
        spec_run_command(lit("getvol"), args1, snap) == (CmdResultView::Done {
            payload: spec_getvol_payload(snap.volume),
            volume: VolumeAction::Keep,
        }),
{
    lemma_dispatch_getvol(args1, snap);
    lemma_dispatch_getvol(args2, snap);
}

/// Law: a stored volume always lies in the emulated range; values above
/// it are cut to the upper bound, values below to the lower, values
/// inside pass unchanged.
pub proof fn lemma_setvol_clamps(v: int)
    ensures
        0 <= clamp_volume(v) <= 100,
        v > 100 ==> clamp_volume(v) == 100,
        v < 0 ==> clamp_volume(v) == 0,
        0 <= v <= 100 ==> clamp_volume(v) == v,
{
}

/// Law: before the controller ever publishes (and after it loses the
/// backend), `status` answers the no-player payload — a stopped, empty
/// playlist — and cannot fail.
pub proof fn lemma_status_before_first_poll(args: Seq<u8>, snap: SnapshotView)
    requires
        (snap.player is None),
    ensures
        spec_run_command(lit("status"), args, snap) == (CmdResultView::Done {
            payload: spec_dummy_status_payload(snap.volume),
            volume: VolumeAction::Keep,
        }),
{
    lemma_dispatch_status(args, snap);
}

/// Law: an idle long-poll does not end while every watched subsystem
/// still shows what this connection last reported; in particular, a
/// poll watching the player while no backend session exists and none
/// was ever seen keeps waiting.
pub proof fn lemma_idle_waits_while_unchanged(c: ConnectionView, snap: SnapshotView)
    requires
        (c.pending matches Some(PendingView::Idle { player, playlist, mixer })),
        (c.pending matches Some(PendingView::Idle { player, playlist, mixer }) ==> (player
            ==> spec_cur_player_proj(snap) == c.last_idle_player_state) && (playlist
            ==> spec_cur_playlist_proj(snap) == c.last_idle_playlist_state) && (mixer ==> Some(
            snap.volume,
        ) == c.last_idle_mixer_state)),
    ensures
        (spec_idle_poll(c, snap) is None),
{
}

/// Law: an idle watching the player answers `changed: player` as soon
/// as the published projection differs from what it last reported, and
/// records the new projection.
pub proof fn lemma_idle_reports_player_change(c: ConnectionView, snap: SnapshotView)
    requires
        c.list == ListState::Normal,
        (c.pending matches Some(PendingView::Idle { player: true, .. })),
        spec_cur_player_proj(snap) != c.last_idle_player_state,
    ensures
        (spec_idle_poll(c, snap) matches Some((rep, c2)) && rep.out == lit("changed: player\n")
            + lit("OK\n") && c2.last_idle_player_state == spec_cur_player_proj(snap)
            && c2.pending is None),
{
}

/// Law: a transport-only change (the same title, artist and artwork,
/// another playback status) moves the player projection but not the
/// playlist projection.
pub proof fn lemma_projection_split(s1: PlayerStateView, s2: PlayerStateView)
    requires
        s1.title == s2.title,
        s1.artist == s2.artist,
        s1.art_url == s2.art_url,
        s1.playback_status != s2.playback_status,
    ensures
        spec_idle_playlist_proj(s1) == spec_idle_playlist_proj(s2),
        spec_idle_player_proj(s1) != spec_idle_player_proj(s2),
{
    assert(spec_idle_player_proj(s1).playback_status != spec_idle_player_proj(s2).playback_status);
}

/// Law: after a transport-only change, a connection idling on the
/// playlist alone reports nothing, while one idling on the player
/// reports a change.
pub proof fn lemma_transport_change_idle(
    cpl: ConnectionView,
    cpr: ConnectionView,
    snap: SnapshotView,
    prev: PlayerStateView,
)
    requires
        cpl.pending == Some(PendingView::Idle { player: false, playlist: true, mixer: false }),
        cpl.last_idle_playlist_state == Some(spec_idle_playlist_proj(prev)),
        cpr.list == ListState::Normal,
        cpr.pending == Some(PendingView::Idle { player: true, playlist: false, mixer: false }),
        cpr.last_idle_player_state == Some(spec_idle_player_proj(prev)),
        (snap.player matches Some(cur) && cur.title == prev.title && cur.artist == prev.artist
            && cur.art_url == prev.art_url && cur.playback_status != prev.playback_status),
    ensures
        (spec_idle_poll(cpl, snap) is None),
        (spec_idle_poll(cpr, snap) matches Some((rep, _)) && rep.out == lit("changed: player\n")
            + lit("OK\n")),
{
    let cur = snap.player->0;
    lemma_projection_split(prev, cur);
    lemma_idle_reports_player_change(cpr, snap);
}

/// The volume after a run of relative changes, each applied and clamped
/// in turn (the process performs each as one atomic read-modify-write).
pub open spec fn spec_apply_deltas(v: u8, deltas: Seq<i8>) -> u8
    decreases deltas.len(),
{
    if deltas.len() == 0 {
        v
    } else {
        spec_apply_deltas(clamp_volume(v + deltas[0]), deltas.drop_first())
    }
}

/// Law: no increment is lost: applying `volume 1` any number of times,
/// in any interleaving of whole read-modify-write steps, ends at the
/// clamped sum.
pub proof fn lemma_volume_increments(v: u8, n: nat)
    requires
        v <= 100,
    ensures
        spec_apply_deltas(v, Seq::new(n, |i: int| 1i8)) == (if v + n > 100 {
            100u8
        } else {
            (v + n) as u8
        }),
    decreases n,
{
    let ones = Seq::new(n, |i: int| 1i8);
    if n > 0 {
        let v1 = clamp_volume(v + 1);
        lemma_volume_increments(v1, (n - 1) as nat);
        assert(ones.drop_first() =~= Seq::new((n - 1) as nat, |i: int| 1i8));
    }
}

} // verus!
