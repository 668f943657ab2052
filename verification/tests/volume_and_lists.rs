//! Volume emulation (clamping, parsing, lost-update freedom) and the
//! command-list state machine, including the failed-batch behaviour.

use mpd_bridge::engine::{next_step, Connection, Reply, Step, VolumeAction};
use mpd_bridge::store::{apply_volume_delta, clamp_setvol, StateSnapshot};

fn snap(volume: u8) -> StateSnapshot {
    StateSnapshot { volume, player: None }
}

/// Runs one command and applies its volume action to the store value,
/// as the process does.
fn run(conn: &mut Connection, volume: &mut u8, input: &[u8]) -> Reply {
    conn.feed(input);
    let r = match next_step(conn, &snap(*volume)) {
        Step::Reply(r) => r,
        _ => panic!("expected an immediate reply"),
    };
    match r.volume {
        VolumeAction::Keep => {}
        VolumeAction::Add(d) => *volume = apply_volume_delta(*volume, d),
        VolumeAction::Absolute(v) => *volume = v,
    }
    r
}

#[test]
fn setvol_clamps_the_upper_bound() {
    let mut conn = Connection::new();
    let mut volume: u8 = 0;
    let r = run(&mut conn, &mut volume, b"setvol \"150\"\n");
    assert_eq!(r.out, b"OK\n".to_vec());
    let r = run(&mut conn, &mut volume, b"getvol\n");
    assert_eq!(r.out, b"volume: 100\nOK\n".to_vec());
}

#[test]
fn setvol_clamps_the_lower_bound() {
    let mut conn = Connection::new();
    let mut volume: u8 = 40;
    run(&mut conn, &mut volume, b"setvol \"-5\"\n");
    let r = run(&mut conn, &mut volume, b"getvol\n");
    assert_eq!(r.out, b"volume: 0\nOK\n".to_vec());
}

#[test]
fn setvol_stores_values_in_range() {
    let mut conn = Connection::new();
    let mut volume: u8 = 0;
    run(&mut conn, &mut volume, b"setvol 50\n");
    assert_eq!(volume, 50);
    let r = run(&mut conn, &mut volume, b"getvol\n");
    assert_eq!(r.out, b"volume: 50\nOK\n".to_vec());
}

#[test]
fn setvol_rejects_an_unparseable_argument() {
    let mut conn = Connection::new();
    let mut volume: u8 = 7;
    let r = run(&mut conn, &mut volume, b"setvol loud\n");
    assert_eq!(r.out, b"ACK [5@0] {setvol} invalid setvol value\n".to_vec());
    assert_eq!(volume, 7);
}

#[test]
fn volume_applies_a_clamped_delta() {
    let mut conn = Connection::new();
    let mut volume: u8 = 95;
    run(&mut conn, &mut volume, b"volume 10\n");
    assert_eq!(volume, 100);
    run(&mut conn, &mut volume, b"volume -127\n");
    assert_eq!(volume, 0);
}

#[test]
fn volume_rejects_deltas_out_of_range() {
    let mut conn = Connection::new();
    let mut volume: u8 = 10;
    let r = run(&mut conn, &mut volume, b"volume 128\n");
    assert_eq!(r.out, b"ACK [5@0] {volume} invalid volume delta\n".to_vec());
    let r = run(&mut conn, &mut volume, b"volume\n");
    assert_eq!(r.out, b"ACK [5@0] {volume} invalid volume delta\n".to_vec());
    assert_eq!(volume, 10);
}

#[test]
fn getvol_is_idempotent() {
    let mut conn = Connection::new();
    let mut volume: u8 = 64;
    let first = run(&mut conn, &mut volume, b"getvol\n");
    let second = run(&mut conn, &mut volume, b"getvol\n");
    assert_eq!(first.out, second.out);
    assert_eq!(first.out, b"volume: 64\nOK\n".to_vec());
}

#[test]
fn repeated_increments_reach_the_clamped_sum() {
    let mut conn = Connection::new();
    let mut volume: u8 = 0;
    for _ in 0..150 {
        run(&mut conn, &mut volume, b"volume 1\n");
    }
    assert_eq!(volume, 100);
    let r = run(&mut conn, &mut volume, b"getvol\n");
    assert_eq!(r.out, b"volume: 100\nOK\n".to_vec());
}

#[test]
fn clamp_helpers_match_the_documented_bounds() {
    assert_eq!(clamp_setvol(150), 100);
    assert_eq!(clamp_setvol(-5), 0);
    assert_eq!(clamp_setvol(100), 100);
    assert_eq!(clamp_setvol(0), 0);
    assert_eq!(apply_volume_delta(3, -5), 0);
    assert_eq!(apply_volume_delta(0, 127), 100);
    assert_eq!(apply_volume_delta(50, -20), 30);
}

#[test]
fn silent_batch_answers_once() {
    let mut conn = Connection::new();
    let mut volume: u8 = 0;
    let r = run(&mut conn, &mut volume, b"command_list_begin\n");
    assert_eq!(r.out, Vec::<u8>::new());
    let r = run(&mut conn, &mut volume, b"ping\n");
    assert_eq!(r.out, Vec::<u8>::new());
    let r = run(&mut conn, &mut volume, b"getvol\n");
    assert_eq!(r.out, b"volume: 0\n".to_vec());
    let r = run(&mut conn, &mut volume, b"command_list_end\n");
    assert_eq!(r.out, b"OK\n".to_vec());
}

#[test]
fn verbose_batch_acknowledges_each_command() {
    let mut conn = Connection::new();
    let mut volume: u8 = 5;
    let r = run(&mut conn, &mut volume, b"command_list_ok_begin\n");
    assert_eq!(r.out, Vec::<u8>::new());
    let r = run(&mut conn, &mut volume, b"ping\n");
    assert_eq!(r.out, b"list_OK\n".to_vec());
    let r = run(&mut conn, &mut volume, b"getvol\n");
    assert_eq!(r.out, b"volume: 5\nlist_OK\n".to_vec());
    let r = run(&mut conn, &mut volume, b"command_list_end\n");
    assert_eq!(r.out, b"OK\n".to_vec());
}

#[test]
fn failed_batch_acks_once_and_swallows_the_rest() {
    let mut conn = Connection::new();
    let snapshot = snap(0);
    conn.feed(b"command_list_begin\nping\nbogus\nping\ncommand_list_end\n");
    // command_list_begin
    let r = match next_step(&mut conn, &snapshot) {
        Step::Reply(r) => r,
        _ => panic!("expected a reply"),
    };
    assert_eq!(r.out, Vec::<u8>::new());
    // first ping: accepted silently inside the batch
    let r = match next_step(&mut conn, &snapshot) {
        Step::Reply(r) => r,
        _ => panic!("expected a reply"),
    };
    assert_eq!(r.out, Vec::<u8>::new());
    assert!(!r.stop);
    // bogus: one ACK at list position 1, processing stops for this read
    let r = match next_step(&mut conn, &snapshot) {
        Step::Reply(r) => r,
        _ => panic!("expected a reply"),
    };
    assert_eq!(r.out, b"ACK [5@1] {bogus} Unknown command: bogus\n".to_vec());
    assert!(r.stop);
    // the rest is consumed on the next read: the second ping is swallowed
    let r = match next_step(&mut conn, &snapshot) {
        Step::Reply(r) => r,
        _ => panic!("expected a reply"),
    };
    assert_eq!(r.out, Vec::<u8>::new());
    // the batch close ends the failed batch without a success token
    let r = match next_step(&mut conn, &snapshot) {
        Step::Reply(r) => r,
        _ => panic!("expected a reply"),
    };
    assert_eq!(r.out, Vec::<u8>::new());
    assert!(!r.close);
    // the connection is usable again
    conn.feed(b"ping\n");
    let r = match next_step(&mut conn, &snapshot) {
        Step::Reply(r) => r,
        _ => panic!("expected a reply"),
    };
    assert_eq!(r.out, b"OK\n".to_vec());
}

#[test]
fn swallowed_commands_have_no_side_effect() {
    let mut conn = Connection::new();
    let mut volume: u8 = 10;
    run(&mut conn, &mut volume, b"command_list_begin\n");
    run(&mut conn, &mut volume, b"bogus\n");
    let r = run(&mut conn, &mut volume, b"setvol 90\n");
    assert_eq!(r.out, Vec::<u8>::new());
    assert_eq!(volume, 10);
    run(&mut conn, &mut volume, b"command_list_end\n");
}

#[test]
fn error_position_counts_accepted_commands() {
    let mut conn = Connection::new();
    let mut volume: u8 = 0;
    run(&mut conn, &mut volume, b"command_list_ok_begin\n");
    run(&mut conn, &mut volume, b"ping\n");
    run(&mut conn, &mut volume, b"ping\n");
    let r = run(&mut conn, &mut volume, b"bogus\n");
    assert_eq!(r.out, b"ACK [5@2] {bogus} Unknown command: bogus\n".to_vec());
}
