use wvn::negotiate::Role;
use wvn::relay::{monitor_action, MonitorAction, PeerState, Relay, RelayAction, FRAME_SIZE};

fn open_relay() -> Relay {
    let mut relay = Relay::new();
    assert_eq!(relay.on_open(), RelayAction::Idle);
    relay
}

#[test]
fn nothing_is_relayed_before_open() {
    let mut relay = Relay::new();
    assert!(!relay.is_open());
    assert_eq!(relay.on_read(&[1, 2, 3], 3), RelayAction::Idle);
    assert_eq!(relay.on_message(&[1, 2, 3]), RelayAction::Idle);
}

#[test]
fn read_becomes_one_message_of_exactly_its_bytes() {
    let mut relay = open_relay();
    let mut buf = [0u8; FRAME_SIZE];
    buf[..4].copy_from_slice(&[9, 8, 7, 6]);
    assert_eq!(relay.on_read(&buf, 4), RelayAction::Send(vec![9, 8, 7, 6]));
}

#[test]
fn full_frame_is_sent_whole() {
    let mut relay = open_relay();
    let buf: Vec<u8> = (0..FRAME_SIZE).map(|i| (i % 251) as u8).collect();
    assert_eq!(relay.on_read(&buf, FRAME_SIZE), RelayAction::Send(buf.clone()));
}

#[test]
fn empty_read_sends_nothing() {
    let mut relay = open_relay();
    assert_eq!(relay.on_read(&[0u8; FRAME_SIZE], 0), RelayAction::Idle);
    assert_eq!(relay.on_read(&[5u8; 2], 2), RelayAction::Send(vec![5, 5]));
}

#[test]
fn oversized_read_stops_the_direction() {
    let mut relay = open_relay();
    let buf = vec![1u8; FRAME_SIZE + 1];
    assert_eq!(relay.on_read(&buf, FRAME_SIZE + 1), RelayAction::Stop);
    assert_eq!(relay.on_read(&buf, 3), RelayAction::Idle);
    assert_eq!(relay.on_message(&[4]), RelayAction::Write(vec![4]));
}

#[test]
fn read_count_beyond_buffer_stops_the_direction() {
    let mut relay = open_relay();
    assert_eq!(relay.on_read(&[1, 2], 3), RelayAction::Stop);
}

#[test]
fn read_failure_stops_only_that_direction() {
    let mut relay = open_relay();
    assert_eq!(relay.on_read_failed(), RelayAction::Stop);
    assert_eq!(relay.on_read_failed(), RelayAction::Idle);
    assert_eq!(relay.on_read(&[1], 1), RelayAction::Idle);
    assert_eq!(relay.on_message(&[2]), RelayAction::Write(vec![2]));
}

#[test]
fn write_failure_stops_only_that_direction() {
    let mut relay = open_relay();
    assert_eq!(relay.on_write_failed(), RelayAction::Stop);
    assert_eq!(relay.on_message(&[2]), RelayAction::Idle);
    assert_eq!(relay.on_read(&[1], 1), RelayAction::Send(vec![1]));
}

#[test]
fn reads_are_dispatched_in_read_order() {
    let mut relay = open_relay();
    let reads: Vec<Vec<u8>> = vec![vec![1], vec![2, 2], vec![3, 3, 3], vec![4; 500]];
    let mut sent = Vec::new();
    for r in &reads {
        match relay.on_read(r, r.len()) {
            RelayAction::Send(b) => sent.push(b),
            other => panic!("unexpected {:?}", other),
        }
    }
    assert_eq!(sent, reads);
}

#[test]
fn channel_message_is_written_whole() {
    let mut relay = open_relay();
    let payload: Vec<u8> = (0..1200).map(|i| (i % 256) as u8).collect();
    assert_eq!(relay.on_message(&payload), RelayAction::Write(payload.clone()));
}

#[test]
fn closed_state_ends_all_relaying() {
    for role in [Role::Offerer, Role::Answerer] {
        let mut relay = open_relay();
        relay.on_state_change(role, PeerState::Closed);
        assert!(relay.is_terminal());
        assert_eq!(relay.on_read(&[1, 2], 2), RelayAction::Idle);
        assert_eq!(relay.on_message(&[1, 2]), RelayAction::Idle);
        assert_eq!(relay.on_open(), RelayAction::Idle);
        assert_eq!(relay.on_read(&[1, 2], 2), RelayAction::Idle);
    }
}

#[test]
fn failed_state_ends_all_relaying() {
    let mut relay = open_relay();
    assert_eq!(relay.on_state_change(Role::Offerer, PeerState::Failed), MonitorAction::Shutdown);
    assert!(relay.is_terminal());
    assert_eq!(relay.on_read(&[1], 1), RelayAction::Idle);
}

#[test]
fn intermediate_states_change_nothing() {
    let mut relay = open_relay();
    for s in [PeerState::New, PeerState::Connecting, PeerState::Connected, PeerState::Disconnected] {
        assert_eq!(relay.on_state_change(Role::Answerer, s), MonitorAction::Ignore);
    }
    assert!(!relay.is_terminal());
    assert_eq!(relay.on_read(&[1], 1), RelayAction::Send(vec![1]));
}

#[test]
fn monitor_policy_per_role() {
    assert_eq!(monitor_action(Role::Offerer, PeerState::Failed), MonitorAction::Shutdown);
    assert_eq!(monitor_action(Role::Answerer, PeerState::Failed), MonitorAction::Shutdown);
    assert_eq!(monitor_action(Role::Answerer, PeerState::Closed), MonitorAction::Exit);
    assert_eq!(monitor_action(Role::Offerer, PeerState::Closed), MonitorAction::Ignore);
    assert_eq!(monitor_action(Role::Offerer, PeerState::Connected), MonitorAction::Ignore);
}
