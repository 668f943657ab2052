//! Single-command behaviour over the connection engine: exact wire
//! bytes for every implemented command, and the failure ACK shape.

use mpd_bridge::engine::{next_step, finish_playback, Command, Connection, Reply, Step, VolumeAction};
use mpd_bridge::player::{PlaybackStatus, PlayerState};
use mpd_bridge::store::StateSnapshot;

fn snap(volume: u8, player: Option<PlayerState>) -> StateSnapshot {
    StateSnapshot { volume, player }
}

fn reply_for(input: &[u8], snapshot: &StateSnapshot) -> Reply {
    let mut conn = Connection::new();
    conn.feed(input);
    match next_step(&mut conn, snapshot) {
        Step::Reply(r) => r,
        _ => panic!("expected an immediate reply"),
    }
}

#[test]
fn ping_answers_bare_ok() {
    let r = reply_for(b"ping\n", &snap(0, None));
    assert_eq!(r.out, b"OK\n".to_vec());
    assert!(matches!(r.volume, VolumeAction::Keep));
    assert!(!r.close);
    assert!(!r.stop);
}

#[test]
fn commands_lists_supported_commands() {
    let r = reply_for(b"commands\n", &snap(0, None));
    let expected = "command: close\ncommand: commands\ncommand: currentsong\ncommand: getvol\n\
                    command: idle\ncommand: lsinfo\ncommand: next\ncommand: pause\n\
                    command: ping\ncommand: play\ncommand: playlistinfo\ncommand: previous\n\
                    command: setvol\ncommand: stats\ncommand: status\ncommand: stop\n\
                    command: tagtypes\ncommand: volume\nOK\n";
    assert_eq!(r.out, expected.as_bytes().to_vec());
}

#[test]
fn tagtypes_lists_supported_tags() {
    let r = reply_for(b"tagtypes\n", &snap(0, None));
    assert_eq!(
        r.out,
        b"tagtype: Artist\ntagtype: Album\ntagtype: Title\nOK\n".to_vec()
    );
}

#[test]
fn unknown_command_is_acked_and_stops_the_read() {
    let r = reply_for(b"bogus\n", &snap(0, None));
    assert_eq!(
        r.out,
        b"ACK [5@0] {bogus} Unknown command: bogus\n".to_vec()
    );
    assert!(r.stop);
    assert!(!r.close);
}

#[test]
fn non_utf8_command_is_echoed_as_placeholder() {
    let r = reply_for(b"\xff\xfe\n", &snap(0, None));
    assert_eq!(
        r.out,
        b"ACK [5@0] {[un-utf8 command]} Unknown command: [un-utf8 command]\n".to_vec()
    );
}

#[test]
fn close_replies_nothing_and_closes() {
    let r = reply_for(b"close\n", &snap(0, None));
    assert_eq!(r.out, Vec::<u8>::new());
    assert!(r.close);
}

#[test]
fn ignored_commands_answer_empty_success() {
    for cmd in [&b"playlistinfo\n"[..], b"lsinfo\n", b"stats\n", b"noidle\n"] {
        let r = reply_for(cmd, &snap(0, None));
        assert_eq!(r.out, b"OK\n".to_vec());
    }
}

#[test]
fn status_without_player_is_the_no_player_payload() {
    let r = reply_for(b"status\n", &snap(37, None));
    assert_eq!(
        r.out,
        b"repeat: 0\nrandom: 0\nsong: 0\nplaylistlength: 0\nvolume: 37\nstate: stop\nOK\n"
            .to_vec()
    );
}

#[test]
fn status_with_player_reports_all_known_fields() {
    let player = PlayerState {
        playback_status: PlaybackStatus::Playing,
        title: Some(b"Song".to_vec()),
        artist: Some(b"Artist".to_vec()),
        duration_ms: Some(185_230),
        elapsed_ms: Some(5_500),
        art_url: Some(b"http://art".to_vec()),
    };
    let r = reply_for(b"status\n", &snap(42, Some(player)));
    let expected = "repeat: 0\nrandom: 0\nsong: 0\nplaylistlength: 1\nvolume: 42\nstate: play\n\
                    duration: 185.230\nelapsed: 5.500\ntime: 6:185\narturl: http://art\nOK\n";
    assert_eq!(r.out, expected.as_bytes().to_vec());
}

#[test]
fn status_omits_unknown_fields() {
    let player = PlayerState {
        playback_status: PlaybackStatus::Paused,
        title: None,
        artist: None,
        duration_ms: None,
        elapsed_ms: None,
        art_url: None,
    };
    let r = reply_for(b"status\n", &snap(0, Some(player)));
    assert_eq!(
        r.out,
        b"repeat: 0\nrandom: 0\nsong: 0\nplaylistlength: 1\nvolume: 0\nstate: pause\nOK\n"
            .to_vec()
    );
}

#[test]
fn greeting_identifies_the_protocol() {
    assert_eq!(mpd_bridge::responses::greeting(), b"OK MPD 0.23.16\n".to_vec());
}

#[test]
fn status_rounds_sub_second_times() {
    let player = PlayerState {
        playback_status: PlaybackStatus::Playing,
        title: None,
        artist: None,
        duration_ms: Some(999),
        elapsed_ms: Some(499),
        art_url: None,
    };
    let r = reply_for(b"status\n", &snap(1, Some(player)));
    let expected = "repeat: 0\nrandom: 0\nsong: 0\nplaylistlength: 1\nvolume: 1\nstate: play\n\
                    duration: 0.999\nelapsed: 0.499\ntime: 0:1\nOK\n";
    assert_eq!(r.out, expected.as_bytes().to_vec());
}

#[test]
fn currentsong_without_player_is_empty_success() {
    let r = reply_for(b"currentsong\n", &snap(0, None));
    assert_eq!(r.out, b"OK\n".to_vec());
}

#[test]
fn currentsong_reports_known_fields() {
    let player = PlayerState {
        playback_status: PlaybackStatus::Stopped,
        title: Some(b"Song".to_vec()),
        artist: Some(b"Artist".to_vec()),
        duration_ms: Some(185_230),
        elapsed_ms: None,
        art_url: Some(b"http://art".to_vec()),
    };
    let r = reply_for(b"currentsong\n", &snap(0, Some(player)));
    let expected =
        "file: Song\nTitle: Song\nArtist: Artist\nTime: 185\nduration: 185.230\narturl: http://art\nOK\n";
    assert_eq!(r.out, expected.as_bytes().to_vec());
}

#[test]
fn playback_commands_are_queued_and_acknowledged() {
    let mut conn = Connection::new();
    conn.feed(b"play\n");
    match next_step(&mut conn, &snap(0, None)) {
        Step::Playback { command, fallback_pause } => {
            assert!(matches!(command, Command::Play));
            assert!(!fallback_pause);
        }
        _ => panic!("expected a playback step"),
    }
    let r = finish_playback(&mut conn, true);
    assert_eq!(r.out, b"OK\n".to_vec());
}

#[test]
fn stop_requests_pause_fallback() {
    let mut conn = Connection::new();
    conn.feed(b"stop\n");
    match next_step(&mut conn, &snap(0, None)) {
        Step::Playback { command, fallback_pause } => {
            assert!(matches!(command, Command::Stop));
            assert!(fallback_pause);
        }
        _ => panic!("expected a playback step"),
    }
}

#[test]
fn failed_send_is_acked_with_the_command_name() {
    let mut conn = Connection::new();
    conn.feed(b"stop\n");
    match next_step(&mut conn, &snap(0, None)) {
        Step::Playback { .. } => {}
        _ => panic!("expected a playback step"),
    }
    let r = finish_playback(&mut conn, false);
    assert_eq!(
        r.out,
        b"ACK [5@0] {stop} failed to queue playback command\n".to_vec()
    );
    assert!(r.stop);
}

#[test]
fn pause_with_odd_argument_resumes() {
    let mut conn = Connection::new();
    conn.feed(b"pause toggle\n");
    match next_step(&mut conn, &snap(0, None)) {
        Step::Playback { command, .. } => assert!(matches!(command, Command::Play)),
        _ => panic!("expected a playback step"),
    }
    finish_playback(&mut conn, true);
}

#[test]
fn pause_accepts_the_documented_arguments() {
    for input in [&b"pause\n"[..], b"pause 1\n", b"pause \"1\"\n"] {
        let mut conn = Connection::new();
        conn.feed(input);
        match next_step(&mut conn, &snap(0, None)) {
            Step::Playback { command, .. } => assert!(matches!(command, Command::Pause)),
            _ => panic!("expected a playback step"),
        }
    }
}

#[test]
fn partial_lines_wait_for_more_input() {
    let mut conn = Connection::new();
    conn.feed(b"pin");
    assert!(matches!(next_step(&mut conn, &snap(0, None)), Step::NeedInput));
    conn.feed(b"g\n");
    match next_step(&mut conn, &snap(0, None)) {
        Step::Reply(r) => assert_eq!(r.out, b"OK\n".to_vec()),
        _ => panic!("expected a reply"),
    }
}

#[test]
fn carriage_returns_and_blank_lines_frame_commands() {
    let mut conn = Connection::new();
    conn.feed(b"\n\nping\r\nping\n");
    let s = snap(0, None);
    match next_step(&mut conn, &s) {
        Step::Reply(r) => assert_eq!(r.out, b"OK\n".to_vec()),
        _ => panic!("expected a reply"),
    }
    match next_step(&mut conn, &s) {
        Step::Reply(r) => assert_eq!(r.out, b"OK\n".to_vec()),
        _ => panic!("expected a reply"),
    }
    assert!(matches!(next_step(&mut conn, &s), Step::NeedInput));
}
