//! Payloads of the commands that only read state: the static
//! health/introspection commands and the status, current-song and
//! volume reads.  Each payload is zero or more `Key: value` lines; the
//! success or failure token is appended by the connection engine.

use vstd::prelude::*;

verus! {

use crate::text::lit;
use crate::text::lit_bytes;
use crate::text::dec_rep;
use crate::text::fmt_dec;
use crate::text::push_bytes;
use crate::player::PlaybackStatus;
use crate::store::StateSnapshot;
use crate::store::SnapshotView;

/// The greeting sent on connect: the protocol identity and a fixed
/// version, which clients use to detect compatibility.
pub open spec fn spec_greeting() -> Seq<u8> {
    lit("OK MPD 0.23.16\n")
}

/// The greeting line written when a client connects.
pub fn greeting() -> (r: Vec<u8>)
    ensures
        r@ == spec_greeting(),
{
    lit_bytes("OK MPD 0.23.16\n")
}

/// `ping` answers with no payload.
pub fn handle_ping() -> (r: Vec<u8>)
    ensures
        r@ == Seq::<u8>::empty(),
{
    Vec::new()
}

/// The command list this bridge implements, one `command:` line each.
pub open spec fn spec_commands_payload() -> Seq<u8> {
    lit(
        "command: close\ncommand: commands\ncommand: currentsong\ncommand: getvol\ncommand: idle\ncommand: lsinfo\ncommand: next\ncommand: pause\ncommand: ping\ncommand: play\ncommand: playlistinfo\ncommand: previous\ncommand: setvol\ncommand: stats\ncommand: status\ncommand: stop\ncommand: tagtypes\ncommand: volume\n",
    )
}

/// `commands` lists the supported commands.
pub fn handle_commands() -> (r: Vec<u8>)
    ensures
        r@ == spec_commands_payload(),
{
    lit_bytes(
        "command: close\ncommand: commands\ncommand: currentsong\ncommand: getvol\ncommand: idle\ncommand: lsinfo\ncommand: next\ncommand: pause\ncommand: ping\ncommand: play\ncommand: playlistinfo\ncommand: previous\ncommand: setvol\ncommand: stats\ncommand: status\ncommand: stop\ncommand: tagtypes\ncommand: volume\n",
    )
}

/// The tag types this bridge reports.
pub open spec fn spec_tagtypes_payload() -> Seq<u8> {
    lit("tagtype: Artist\ntagtype: Album\ntagtype: Title\n")
}

/// `tagtypes` lists the supported tag types.
pub fn handle_tagtypes() -> (r: Vec<u8>)
    ensures
        r@ == spec_tagtypes_payload(),
{
    lit_bytes("tagtype: Artist\ntagtype: Album\ntagtype: Title\n")
}

/// Commands acknowledged without effect (playlist listing, filesystem
/// listing, statistics, stopping an idle that never started): an empty
/// success, unlike an unknown command.
pub fn handle_dummy(_name: &str) -> (r: Vec<u8>)
    ensures
        r@ == Seq::<u8>::empty(),
{
    Vec::new()
}

/// Seconds and milliseconds of a duration, as `S.mmm`.
pub open spec fn spec_ms_rep(ms: u64) -> Seq<u8> {
    dec_rep((ms / 1000) as nat) + seq![0x2eu8] + seq![
        (0x30 + (ms % 1000) / 100) as u8,
        (0x30 + ((ms % 1000) / 10) % 10) as u8,
        (0x30 + (ms % 1000) % 10) as u8,
    ]
}

/// Formats integer milliseconds as decimal seconds with three decimal
/// places.
pub fn fmt_ms(ms: u64) -> (r: Vec<u8>)
    ensures
        r@ == spec_ms_rep(ms),
{
    let mut out = fmt_dec(ms / 1000);
    let frac = ms % 1000;
    out.push(0x2e);
    out.push((0x30 + frac / 100) as u8);
    out.push((0x30 + (frac / 10) % 10) as u8);
    out.push((0x30 + frac % 10) as u8);
    proof {
        assert(out@ =~= spec_ms_rep(ms));
    }
    out
}

/// Milliseconds rounded to whole seconds.
pub open spec fn spec_round_secs(ms: u64) -> nat {
    (ms / 1000 + if ms % 1000 >= 500 {
        1nat
    } else {
        0nat
    }) as nat
}

/// Rounds integer milliseconds to whole seconds.
pub fn round_secs(ms: u64) -> (r: u64)
    ensures
        r == spec_round_secs(ms),
{
    if ms % 1000 >= 500 {
        ms / 1000 + 1
    } else {
        ms / 1000
    }
}

/// The protocol's name for a transport state.
pub open spec fn spec_state_name(s: PlaybackStatus) -> Seq<u8> {
    match s {
        PlaybackStatus::Playing => lit("play"),
        PlaybackStatus::Paused => lit("pause"),
        PlaybackStatus::Stopped => lit("stop"),
    }
}

fn state_name(s: PlaybackStatus) -> (r: Vec<u8>)
    ensures
        r@ == spec_state_name(s),
{
    match s {
        PlaybackStatus::Playing => lit_bytes("play"),
        PlaybackStatus::Paused => lit_bytes("pause"),
        PlaybackStatus::Stopped => lit_bytes("stop"),
    }
}

/// The status payload while no player state was ever published (or
/// after the backend was lost): a stopped, empty playlist, with the
/// emulated volume.
pub open spec fn spec_dummy_status_payload(volume: u8) -> Seq<u8> {
    lit("repeat: 0\nrandom: 0\nsong: 0\nplaylistlength: 0\nvolume: ") + dec_rep(volume as nat)
        + lit("\nstate: stop\n")
}

/// The no-player status payload.
pub fn handle_dummy_status(volume: u8) -> (r: Vec<u8>)
    ensures
        r@ == spec_dummy_status_payload(volume),
{
    let mut out = lit_bytes("repeat: 0\nrandom: 0\nsong: 0\nplaylistlength: 0\nvolume: ");
    let v = fmt_dec(volume as u64);
    push_bytes(&mut out, v.as_slice());
    push_bytes(&mut out, lit_bytes("\nstate: stop\n").as_slice());
    proof {
        assert(out@ =~= spec_dummy_status_payload(volume));
    }
    out
}

/// The status payload for a known player state: fixed keys first, then
/// duration, elapsed, their `time` pair and the artwork URL, each only
/// when known.
pub open spec fn spec_status_payload(s: SnapshotView) -> Seq<u8> {
    match s.player {
        None => spec_dummy_status_payload(s.volume),
        Some(p) => lit("repeat: 0\nrandom: 0\nsong: 0\nplaylistlength: 1\nvolume: ") + dec_rep(
            s.volume as nat,
        ) + lit("\nstate: ") + spec_state_name(p.playback_status) + lit("\n") + (match p
            .duration_ms {
            Some(d) => lit("duration: ") + spec_ms_rep(d) + lit("\n"),
            None => Seq::<u8>::empty(),
        }) + (match p.elapsed_ms {
            Some(e) => lit("elapsed: ") + spec_ms_rep(e) + lit("\n") + (match p.duration_ms {
                Some(d) => lit("time: ") + dec_rep(spec_round_secs(e)) + lit(":") + dec_rep(
                    spec_round_secs(d),
                ) + lit("\n"),
                None => Seq::<u8>::empty(),
            }),
            None => Seq::<u8>::empty(),
        }) + (match p.art_url {
            Some(u) => lit("arturl: ") + u + lit("\n"),
            None => Seq::<u8>::empty(),
        }),
    }
}

/// `status` reads the snapshot only; it never touches the backend and
/// never fails.
pub fn handle_status(snapshot: &StateSnapshot) -> (r: Vec<u8>)
    ensures
        r@ == spec_status_payload(snapshot@),
{
    let volume = snapshot.volume;
    let player_state = match &snapshot.player {
        None => {
            return handle_dummy_status(volume);
        },
        Some(p) => p,
    };
    let ghost p = player_state@;
    let mut out = lit_bytes("repeat: 0\nrandom: 0\nsong: 0\nplaylistlength: 1\nvolume: ");
    let v = fmt_dec(volume as u64);
    push_bytes(&mut out, v.as_slice());
    push_bytes(&mut out, lit_bytes("\nstate: ").as_slice());
    let name = state_name(player_state.playback_status);
    push_bytes(&mut out, name.as_slice());
    push_bytes(&mut out, lit_bytes("\n").as_slice());
    let ghost head = out@;

    let mut duration_piece: Vec<u8> = Vec::new();
    if let Some(duration) = player_state.duration_ms {
        push_bytes(&mut duration_piece, lit_bytes("duration: ").as_slice());
        let d = fmt_ms(duration);
        push_bytes(&mut duration_piece, d.as_slice());
        push_bytes(&mut duration_piece, lit_bytes("\n").as_slice());
        proof {
            assert(duration_piece@ =~= lit("duration: ") + spec_ms_rep(duration) + lit("\n"));
        }
    }
    push_bytes(&mut out, duration_piece.as_slice());

    let mut elapsed_piece: Vec<u8> = Vec::new();
    if let Some(elapsed) = player_state.elapsed_ms {
        push_bytes(&mut elapsed_piece, lit_bytes("elapsed: ").as_slice());
        let e = fmt_ms(elapsed);
        push_bytes(&mut elapsed_piece, e.as_slice());
        push_bytes(&mut elapsed_piece, lit_bytes("\n").as_slice());
        let ghost eh = elapsed_piece@;
        proof {
            assert(eh =~= lit("elapsed: ") + spec_ms_rep(elapsed) + lit("\n"));
        }
        let mut time_piece: Vec<u8> = Vec::new();
        if let Some(duration) = player_state.duration_ms {
            push_bytes(&mut time_piece, lit_bytes("time: ").as_slice());
            let es = fmt_dec(round_secs(elapsed));
            push_bytes(&mut time_piece, es.as_slice());
            push_bytes(&mut time_piece, lit_bytes(":").as_slice());
            let ds = fmt_dec(round_secs(duration));
            push_bytes(&mut time_piece, ds.as_slice());
            push_bytes(&mut time_piece, lit_bytes("\n").as_slice());
            proof {
                assert(time_piece@ =~= lit("time: ") + dec_rep(spec_round_secs(elapsed)) + lit(
                    ":",
                ) + dec_rep(spec_round_secs(duration)) + lit("\n"));
            }
        }
        push_bytes(&mut elapsed_piece, time_piece.as_slice());
    }
    push_bytes(&mut out, elapsed_piece.as_slice());

    let mut art_piece: Vec<u8> = Vec::new();
    if let Some(art_url) = &player_state.art_url {
        push_bytes(&mut art_piece, lit_bytes("arturl: ").as_slice());
        push_bytes(&mut art_piece, art_url.as_slice());
        push_bytes(&mut art_piece, lit_bytes("\n").as_slice());
        proof {
            assert(art_piece@ =~= lit("arturl: ") + p.art_url->0 + lit("\n"));
        }
    }
    push_bytes(&mut out, art_piece.as_slice());
    proof {
        assert(out@ =~= spec_status_payload(snapshot@));
    }
    out
}

/// The current-song payload: file and title (the same value, as the
/// bridge knows no files), artist, timing and artwork, each only when
/// known; no player state yields an empty payload.
pub open spec fn spec_current_song_payload(s: SnapshotView) -> Seq<u8> {
    match s.player {
        None => Seq::<u8>::empty(),
        Some(p) => (match p.title {
            Some(t) => lit("file: ") + t + lit("\nTitle: ") + t + lit("\n"),
            None => Seq::<u8>::empty(),
        }) + (match p.artist {
            Some(a) => lit("Artist: ") + a + lit("\n"),
            None => Seq::<u8>::empty(),
        }) + (match p.duration_ms {
            Some(d) => lit("Time: ") + dec_rep(spec_round_secs(d)) + lit("\nduration: ")
                + spec_ms_rep(d) + lit("\n"),
            None => Seq::<u8>::empty(),
        }) + (match p.art_url {
            Some(u) => lit("arturl: ") + u + lit("\n"),
            None => Seq::<u8>::empty(),
        }),
    }
}

/// `currentsong` reads the snapshot only and never fails.
pub fn handle_current_song(snapshot: &StateSnapshot) -> (r: Vec<u8>)
    ensures
        r@ == spec_current_song_payload(snapshot@),
{
    let player_state = match &snapshot.player {
        None => {
            return Vec::new();
        },
        Some(p) => p,
    };
    let ghost p = player_state@;
    let mut out: Vec<u8> = Vec::new();
    if let Some(title) = &player_state.title {
        push_bytes(&mut out, lit_bytes("file: ").as_slice());
        push_bytes(&mut out, title.as_slice());
        push_bytes(&mut out, lit_bytes("\nTitle: ").as_slice());
        push_bytes(&mut out, title.as_slice());
        push_bytes(&mut out, lit_bytes("\n").as_slice());
        proof {
            assert(out@ =~= lit("file: ") + p.title->0 + lit("\nTitle: ") + p.title->0 + lit(
                "\n",
            ));
        }
    }

    let mut artist_piece: Vec<u8> = Vec::new();
    if let Some(artist) = &player_state.artist {
        push_bytes(&mut artist_piece, lit_bytes("Artist: ").as_slice());
        push_bytes(&mut artist_piece, artist.as_slice());
        push_bytes(&mut artist_piece, lit_bytes("\n").as_slice());
        proof {
            assert(artist_piece@ =~= lit("Artist: ") + p.artist->0 + lit("\n"));
        }
    }
    push_bytes(&mut out, artist_piece.as_slice());

    let mut time_piece: Vec<u8> = Vec::new();
    if let Some(duration) = player_state.duration_ms {
        push_bytes(&mut time_piece, lit_bytes("Time: ").as_slice());
        let ds = fmt_dec(round_secs(duration));
        push_bytes(&mut time_piece, ds.as_slice());
        push_bytes(&mut time_piece, lit_bytes("\nduration: ").as_slice());
        let dm = fmt_ms(duration);
        push_bytes(&mut time_piece, dm.as_slice());
        push_bytes(&mut time_piece, lit_bytes("\n").as_slice());
        proof {
            assert(time_piece@ =~= lit("Time: ") + dec_rep(spec_round_secs(duration)) + lit(
                "\nduration: ",
            ) + spec_ms_rep(duration) + lit("\n"));
        }
    }
    push_bytes(&mut out, time_piece.as_slice());

    let mut art_piece: Vec<u8> = Vec::new();
    if let Some(art_url) = &player_state.art_url {
        push_bytes(&mut art_piece, lit_bytes("arturl: ").as_slice());
        push_bytes(&mut art_piece, art_url.as_slice());
        push_bytes(&mut art_piece, lit_bytes("\n").as_slice());
        proof {
            assert(art_piece@ =~= lit("arturl: ") + p.art_url->0 + lit("\n"));
        }
    }
    push_bytes(&mut out, art_piece.as_slice());
    proof {
        assert(out@ =~= spec_current_song_payload(snapshot@));
    }
    out
}

/// The volume report: one `volume:` line.
pub open spec fn spec_getvol_payload(volume: u8) -> Seq<u8> {
    lit("volume: ") + dec_rep(volume as nat) + lit("\n")
}

/// `getvol` reads the emulated volume only.
pub fn handle_getvol(volume: u8) -> (r: Vec<u8>)
    ensures
        r@ == spec_getvol_payload(volume),
{
    let mut out = lit_bytes("volume: ");
    let v = fmt_dec(volume as u64);
    push_bytes(&mut out, v.as_slice());
    push_bytes(&mut out, lit_bytes("\n").as_slice());
    proof {
        assert(out@ =~= spec_getvol_payload(volume));
    }
    out
}

} // verus!
