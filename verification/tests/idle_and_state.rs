//! The idle long-poll engine, the idle projections, the controller's
//! publish-if-changed and log-once decisions, and the text utilities.

use mpd_bridge::controller::{needs_session_rescan, should_switch_session, Controller};
use mpd_bridge::engine::{
    idle_cancelled, idle_poll, is_noidle, next_step, Connection, Step,
};
use mpd_bridge::error::{ack_line, safe_command_print, MpdCommandError};
use mpd_bridge::player::{
    get_state_for_idle_player, get_state_for_idle_playlist, PlaybackStatus, PlayerState,
};
use mpd_bridge::store::StateSnapshot;
use mpd_bridge::text::{contains_bytes, fmt_dec, is_valid_utf8, parse_decimal};

fn snap(volume: u8, player: Option<PlayerState>) -> StateSnapshot {
    StateSnapshot { volume, player }
}

fn sample_state(status: PlaybackStatus) -> PlayerState {
    PlayerState {
        playback_status: status,
        title: Some(b"Song".to_vec()),
        artist: Some(b"Artist".to_vec()),
        duration_ms: Some(185_230),
        elapsed_ms: Some(5_500),
        art_url: Some(b"http://art".to_vec()),
    }
}

fn start_idle(conn: &mut Connection, input: &[u8], snapshot: &StateSnapshot) {
    conn.feed(input);
    match next_step(conn, snapshot) {
        Step::StartIdle => {}
        _ => panic!("expected the idle loop to start"),
    }
}

#[test]
fn idle_with_unknown_subsystem_is_an_error() {
    let mut conn = Connection::new();
    conn.feed(b"idle database\n");
    match next_step(&mut conn, &snap(0, None)) {
        Step::Reply(r) => {
            assert_eq!(
                r.out,
                b"ACK [5@0] {idle} No supported subsystem in database\n".to_vec()
            );
        }
        _ => panic!("expected a reply"),
    }
}

#[test]
fn idle_waits_while_nothing_exists_and_cancels_on_noidle() {
    let mut conn = Connection::new();
    let s = snap(0, None);
    start_idle(&mut conn, b"idle player\n", &s);
    // No backend session and none before: the poll keeps waiting.
    assert!(idle_poll(&mut conn, &s).is_none());
    assert!(idle_poll(&mut conn, &s).is_none());
    // The out-of-band cancel is recognised and answered as empty success.
    assert!(is_noidle(&b"noidle\n".to_vec()));
    assert!(!is_noidle(&b"noidl".to_vec()));
    assert!(!is_noidle(&b"status\n".to_vec()));
    let r = idle_cancelled(&mut conn);
    assert_eq!(r.out, b"OK\n".to_vec());
}

#[test]
fn idle_reports_a_player_change_independently() {
    // A second connection sees the appearing state at once.
    let mut conn = Connection::new();
    let s0 = snap(0, None);
    start_idle(&mut conn, b"idle player\n", &s0);
    assert!(idle_poll(&mut conn, &s0).is_none());
    let s1 = snap(0, Some(sample_state(PlaybackStatus::Playing)));
    let r = idle_poll(&mut conn, &s1).expect("a change must be reported");
    assert_eq!(r.out, b"changed: player\nOK\n".to_vec());
}

#[test]
fn transport_change_wakes_player_watchers_but_not_playlist_watchers() {
    let playing = snap(0, Some(sample_state(PlaybackStatus::Playing)));
    let paused = snap(0, Some(sample_state(PlaybackStatus::Paused)));

    let mut on_playlist = Connection::new();
    start_idle(&mut on_playlist, b"idle playlist\n", &playing);
    let r = idle_poll(&mut on_playlist, &playing).expect("first data is a change");
    assert_eq!(r.out, b"changed: playlist\nOK\n".to_vec());

    let mut on_player = Connection::new();
    start_idle(&mut on_player, b"idle player\n", &playing);
    let r = idle_poll(&mut on_player, &playing).expect("first data is a change");
    assert_eq!(r.out, b"changed: player\nOK\n".to_vec());

    // Same title, artist and artwork; only the transport state moved.
    start_idle(&mut on_playlist, b"idle playlist\n", &paused);
    assert!(idle_poll(&mut on_playlist, &paused).is_none());

    start_idle(&mut on_player, b"idle player\n", &paused);
    let r = idle_poll(&mut on_player, &paused).expect("the player projection moved");
    assert_eq!(r.out, b"changed: player\nOK\n".to_vec());
}

#[test]
fn idle_without_arguments_watches_the_mixer_too() {
    let mut conn = Connection::new();
    let s = snap(30, None);
    start_idle(&mut conn, b"idle\n", &s);
    // First data: the mixer snapshot was never taken, so it reports.
    let r = idle_poll(&mut conn, &s).expect("first mixer reading is a change");
    assert_eq!(r.out, b"changed: mixer\nOK\n".to_vec());
    // Re-armed with an unchanged volume: it waits; after a change it reports.
    start_idle(&mut conn, b"idle mixer\n", &s);
    assert!(idle_poll(&mut conn, &s).is_none());
    let louder = snap(31, None);
    let r = idle_poll(&mut conn, &louder).expect("a volume change is a mixer change");
    assert_eq!(r.out, b"changed: mixer\nOK\n".to_vec());
}

#[test]
fn projections_take_the_documented_subsets() {
    let s = sample_state(PlaybackStatus::Playing);
    let player_proj = get_state_for_idle_player(&s);
    assert_eq!(player_proj.playback_status, PlaybackStatus::Playing);
    assert_eq!(player_proj.title, Some(b"Song".to_vec()));
    assert_eq!(player_proj.artist, Some(b"Artist".to_vec()));
    assert_eq!(player_proj.duration_ms, None);
    assert_eq!(player_proj.elapsed_ms, None);
    assert_eq!(player_proj.art_url, Some(b"http://art".to_vec()));
    let playlist_proj = get_state_for_idle_playlist(&s);
    assert_eq!(playlist_proj.playback_status, PlaybackStatus::Paused);
    assert_eq!(playlist_proj.title, Some(b"Song".to_vec()));
    assert_eq!(playlist_proj.artist, Some(b"Artist".to_vec()));
    assert_eq!(playlist_proj.art_url, None);
}

#[test]
fn controller_publishes_only_changes() {
    let mut ctl = Controller::new();
    // The store starts empty; publishing nothing again is skipped.
    assert!(ctl.try_set_player_state(None).is_none());
    let s = sample_state(PlaybackStatus::Playing);
    let w = ctl
        .try_set_player_state(Some(s))
        .expect("first state must be written");
    assert!(w.is_some());
    // The structurally equal state is not written again.
    assert!(ctl
        .try_set_player_state(Some(sample_state(PlaybackStatus::Playing)))
        .is_none());
    // A transport change is written.
    assert!(ctl
        .try_set_player_state(Some(sample_state(PlaybackStatus::Paused)))
        .is_some());
    // Losing the backend publishes the cleared state once.
    assert!(ctl.try_set_player_state(None).is_some());
    assert!(ctl.try_set_player_state(None).is_none());
}

#[test]
fn controller_logs_each_failure_once() {
    let mut ctl = Controller::new();
    assert!(ctl.on_connect_failure(b"no active player".to_vec()));
    assert!(!ctl.on_connect_failure(b"no active player".to_vec()));
    assert!(ctl.on_connect_failure(b"bus gone".to_vec()));
    ctl.on_connected();
    assert!(ctl.on_connect_failure(b"no active player".to_vec()));
}

#[test]
fn session_switch_decisions_follow_status_and_identity() {
    assert!(!needs_session_rescan(PlaybackStatus::Playing));
    assert!(needs_session_rescan(PlaybackStatus::Paused));
    assert!(needs_session_rescan(PlaybackStatus::Stopped));
    assert!(should_switch_session(
        &b"org.mpris.a".to_vec(),
        &b"org.mpris.b".to_vec()
    ));
    assert!(!should_switch_session(
        &b"org.mpris.a".to_vec(),
        &b"org.mpris.a".to_vec()
    ));
}

#[test]
fn utf8_validation_matches_the_encoding_rules() {
    assert!(is_valid_utf8(&b"plain ascii".to_vec()));
    assert!(is_valid_utf8(&"héllo ☃ 😀".as_bytes().to_vec()));
    assert!(is_valid_utf8(&Vec::new()));
    // A lone continuation byte.
    assert!(!is_valid_utf8(&vec![0x80]));
    // An overlong two-byte encoding of NUL.
    assert!(!is_valid_utf8(&vec![0xc0, 0x80]));
    // A surrogate.
    assert!(!is_valid_utf8(&vec![0xed, 0xa0, 0x80]));
    // Beyond the scalar range.
    assert!(!is_valid_utf8(&vec![0xf5, 0x80, 0x80, 0x80]));
    // A truncated three-byte sequence.
    assert!(!is_valid_utf8(&vec![0xe2, 0x98]));
}

#[test]
fn safe_command_print_echoes_or_replaces() {
    assert_eq!(
        safe_command_print(&b"status".to_vec()),
        b"status".to_vec()
    );
    assert_eq!(
        safe_command_print(&vec![0xff, 0x00]),
        b"[un-utf8 command]".to_vec()
    );
}

#[test]
fn ack_lines_carry_code_position_command_and_message() {
    let err = MpdCommandError::new(&b"bogus".to_vec(), b"went wrong".to_vec());
    assert_eq!(err.mpd_error_code, 5);
    assert_eq!(
        ack_line(&err, 3),
        b"ACK [5@3] {bogus} went wrong\n".to_vec()
    );
}

#[test]
fn decimal_parsing_accepts_signs_quotes_and_rejects_junk() {
    assert_eq!(parse_decimal(&b"100".to_vec()), Some(100));
    assert_eq!(parse_decimal(&b"\"42\"".to_vec()), Some(42));
    assert_eq!(parse_decimal(&b"-5".to_vec()), Some(-5));
    assert_eq!(parse_decimal(&b"+7".to_vec()), Some(7));
    assert_eq!(parse_decimal(&b"0150".to_vec()), Some(150));
    assert_eq!(parse_decimal(&b"".to_vec()), None);
    assert_eq!(parse_decimal(&b"12a".to_vec()), None);
    assert_eq!(parse_decimal(&b" 5".to_vec()), None);
    assert_eq!(parse_decimal(&b"999999999999999999".to_vec()), Some(999_999_999_999_999_999));
    assert_eq!(parse_decimal(&b"9999999999999999999".to_vec()), None);
}

#[test]
fn formatting_and_search_helpers_work() {
    assert_eq!(fmt_dec(0), b"0".to_vec());
    assert_eq!(fmt_dec(12345), b"12345".to_vec());
    assert!(contains_bytes(&b"player playlist".to_vec(), &b"playlist".to_vec()));
    assert!(!contains_bytes(&b"playlist".to_vec(), &b"mixer".to_vec()));
    assert!(contains_bytes(&b"anything".to_vec(), &b"".to_vec()));
}
