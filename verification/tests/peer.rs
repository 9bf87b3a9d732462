use peer_record::peer::FREQUENCY_WINDOW_SECS;
use peer_record::{Host, ListenerAddr, NodeType, Peer, RawStatus};
use snarkos_node_tcp::ConnectionSide;
use std::time::{Duration, Instant};

const SECOND: u128 = 1_000_000_000;

fn listener() -> ListenerAddr {
    ListenerAddr { host: Host::V4(0x7f00_0001), port: 4133 }
}

fn peer_of_type(node_type: NodeType) -> Peer {
    Peer::new(ConnectionSide::Initiator, listener(), 5, node_type, RawStatus { code: 0 })
}

#[test]
fn the_window_is_five_seconds() {
    assert_eq!(FREQUENCY_WINDOW_SECS, 5);
}

#[test]
fn a_new_peer_holds_what_it_was_given() {
    let addr = ListenerAddr { host: Host::V6(1), port: 9000 };
    let peer = Peer::new(ConnectionSide::Responder, addr, 12, NodeType::Prover, RawStatus { code: 3 });
    assert_eq!(peer.side(), ConnectionSide::Responder);
    assert_eq!(*peer.ip(), addr);
    assert_eq!(peer.ip().port, 9000);
    assert_eq!(peer.version(), 12);
    assert_eq!(peer.node_type(), NodeType::Prover);
    assert_eq!(peer.status(), RawStatus { code: 3 });
}

#[test]
fn a_new_peer_is_at_height_zero_and_was_seen_just_now() {
    let before = Instant::now();
    let peer = peer_of_type(NodeType::Client);
    let after = Instant::now();
    assert_eq!(peer.block_height(), 0);
    assert!(before <= peer.last_seen());
    assert!(peer.last_seen() <= after);
    assert_eq!(peer.message_frequency(), 0);
}

#[test]
fn last_seen_is_what_was_set() {
    let peer = peer_of_type(NodeType::Client);
    let later = Instant::now() + Duration::from_secs(90);
    peer.set_last_seen(later);
    assert_eq!(peer.last_seen(), later);
}

#[test]
fn last_seen_may_go_back_in_time() {
    let peer = peer_of_type(NodeType::Client);
    let first = peer.last_seen();
    let later = first + Duration::from_secs(30);
    peer.set_last_seen(later);
    assert_eq!(peer.last_seen(), later);
    peer.set_last_seen(first);
    assert_eq!(peer.last_seen(), first);
}

#[test]
fn block_height_is_what_was_set() {
    let peer = peer_of_type(NodeType::Client);
    peer.set_block_height(1_234_567);
    assert_eq!(peer.block_height(), 1_234_567);
    peer.set_block_height(7);
    assert_eq!(peer.block_height(), 7);
    peer.set_block_height(u32::MAX);
    assert_eq!(peer.block_height(), u32::MAX);
}

#[test]
fn setting_one_shared_field_leaves_the_others() {
    let peer = peer_of_type(NodeType::Client);
    let seen = peer.last_seen();
    peer.set_block_height(9);
    peer.insert_seen_message_at(1, 2, 0);
    assert_eq!(peer.last_seen(), seen);
    peer.set_last_seen(seen + Duration::from_secs(1));
    assert_eq!(peer.block_height(), 9);
    assert_eq!(peer.message_frequency_at(0), 1);
}

#[test]
fn the_version_is_replaced() {
    let mut peer = peer_of_type(NodeType::Client);
    peer.set_version(6);
    assert_eq!(peer.version(), 6);
    assert_eq!(peer.node_type(), NodeType::Client);
    assert_eq!(peer.status(), RawStatus { code: 0 });
    assert_eq!(*peer.ip(), listener());
    assert_eq!(peer.side(), ConnectionSide::Initiator);
}

#[test]
fn the_node_type_is_replaced() {
    let mut peer = peer_of_type(NodeType::Client);
    peer.set_node_type(NodeType::Beacon);
    assert_eq!(peer.node_type(), NodeType::Beacon);
    assert!(peer.is_beacon());
    assert!(!peer.is_client());
    assert_eq!(peer.version(), 5);
    assert_eq!(peer.status(), RawStatus { code: 0 });
}

#[test]
fn the_status_is_replaced() {
    let mut peer = peer_of_type(NodeType::Client);
    peer.set_status(RawStatus { code: 200 });
    assert_eq!(peer.status(), RawStatus { code: 200 });
    assert_eq!(peer.status().code, 200);
    assert_eq!(peer.version(), 5);
    assert_eq!(peer.node_type(), NodeType::Client);
}

#[test]
fn a_peer_answers_for_its_node_type() {
    let beacon = peer_of_type(NodeType::Beacon);
    assert!(beacon.is_beacon() && !beacon.is_validator() && !beacon.is_prover() && !beacon.is_client());
    let validator = peer_of_type(NodeType::Validator);
    assert!(!validator.is_beacon() && validator.is_validator() && !validator.is_prover() && !validator.is_client());
    let prover = peer_of_type(NodeType::Prover);
    assert!(!prover.is_beacon() && !prover.is_validator() && prover.is_prover() && !prover.is_client());
    let client = peer_of_type(NodeType::Client);
    assert!(!client.is_beacon() && !client.is_validator() && !client.is_prover() && client.is_client());
}

#[test]
fn a_message_just_seen_is_counted() {
    let peer = peer_of_type(NodeType::Client);
    peer.insert_seen_message(7, 42);
    assert_eq!(peer.message_frequency(), 1);
}

#[test]
fn a_message_is_not_counted_once_the_window_has_passed() {
    let peer = peer_of_type(NodeType::Client);
    let t0 = 2 * SECOND;
    peer.insert_seen_message_at(7, 42, t0);
    assert_eq!(peer.message_frequency_at(t0), 1);
    assert_eq!(peer.message_frequency_at(t0 + 5 * SECOND), 1);
    assert_eq!(peer.message_frequency_at(t0 + 5 * SECOND + 1), 0);
    assert_eq!(peer.message_frequency_at(t0 + 5 * SECOND + SECOND / 2), 0);
    assert_eq!(peer.message_frequency_at(t0 + 6 * SECOND), 0);
}

#[test]
fn the_same_message_seen_twice_is_counted_once() {
    let peer = peer_of_type(NodeType::Client);
    peer.insert_seen_message(7, 42);
    peer.insert_seen_message(7, 42);
    assert_eq!(peer.message_frequency(), 1);
    peer.insert_seen_message(7, 43);
    peer.insert_seen_message(8, 42);
    assert_eq!(peer.message_frequency(), 3);
}

#[test]
fn seeing_a_message_again_moves_its_stamp() {
    let peer = peer_of_type(NodeType::Client);
    peer.insert_seen_message_at(7, 42, 0);
    assert_eq!(peer.message_frequency_at(10 * SECOND), 0);
    peer.insert_seen_message_at(7, 42, 8 * SECOND);
    assert_eq!(peer.message_frequency_at(10 * SECOND), 1);
}

#[test]
fn stale_messages_are_forgotten_on_request_only() {
    let peer = peer_of_type(NodeType::Client);
    peer.insert_seen_message_at(1, 1, 0);
    peer.insert_seen_message_at(2, 2, 8 * SECOND);
    assert_eq!(peer.message_frequency_at(10 * SECOND), 1);
    // Nothing was forgotten by asking: both messages still count at time 0.
    assert_eq!(peer.message_frequency_at(0), 2);
    peer.forget_stale_messages_at(10 * SECOND);
    assert_eq!(peer.message_frequency_at(10 * SECOND), 1);
    assert_eq!(peer.message_frequency_at(0), 1);
}

#[test]
fn forgetting_right_away_keeps_what_was_just_seen() {
    let peer = peer_of_type(NodeType::Client);
    peer.insert_seen_message(1, 1);
    peer.insert_seen_message(2, 2);
    peer.forget_stale_messages();
    assert_eq!(peer.message_frequency(), 2);
}

#[test]
fn the_clock_of_a_peer_does_not_run_backwards() {
    let peer = peer_of_type(NodeType::Client);
    let first = peer.clock();
    let second = peer.clock();
    assert!(first <= second);
    assert!(second < 3_600 * SECOND);
}

#[test]
fn validator_sees_three_messages_and_then_silence() {
    let peer = peer_of_type(NodeType::Validator);
    assert!(peer.is_validator());
    assert!(!peer.is_beacon());
    assert!(!peer.is_prover());
    assert!(!peer.is_client());
    let t0 = peer.clock();
    peer.insert_seen_message_at(1, 100, t0);
    peer.insert_seen_message_at(2, 200, t0);
    peer.insert_seen_message_at(3, 300, t0);
    assert_eq!(peer.message_frequency_at(t0), 3);
    assert_eq!(peer.message_frequency_at(t0 + 6 * SECOND), 0);
}

#[test]
fn a_clone_is_a_handle_to_the_same_peer() {
    let peer = peer_of_type(NodeType::Client);
    let other = peer.clone();
    assert_eq!(other.side(), peer.side());
    assert_eq!(*other.ip(), *peer.ip());
    assert_eq!(other.version(), peer.version());
    assert_eq!(other.node_type(), peer.node_type());
    assert_eq!(other.status(), peer.status());

    let later = peer.last_seen() + Duration::from_secs(3);
    other.set_last_seen(later);
    assert_eq!(peer.last_seen(), later);
    other.set_block_height(77);
    assert_eq!(peer.block_height(), 77);
    other.insert_seen_message_at(7, 42, 0);
    assert_eq!(peer.message_frequency_at(0), 1);
    peer.insert_seen_message_at(7, 43, 0);
    assert_eq!(other.message_frequency_at(0), 2);
}

#[test]
fn a_clone_keeps_its_own_version_node_type_and_status() {
    let peer = peer_of_type(NodeType::Client);
    let mut other = peer.clone();
    other.set_version(9);
    other.set_node_type(NodeType::Validator);
    other.set_status(RawStatus { code: 4 });
    assert_eq!(peer.version(), 5);
    assert_eq!(peer.node_type(), NodeType::Client);
    assert_eq!(peer.status(), RawStatus { code: 0 });
    assert_eq!(other.version(), 9);
    assert!(other.is_validator());
    assert_eq!(other.status(), RawStatus { code: 4 });
}

#[test]
fn messages_seen_by_many_tasks_at_once_are_all_kept() {
    let peer = peer_of_type(NodeType::Client);
    let tasks: u16 = 8;
    let each: u32 = 200;
    let runtime = tokio::runtime::Builder::new_multi_thread().worker_threads(4).build().unwrap();
    let mut running = Vec::new();
    for task in 0..tasks {
        let handle = peer.clone();
        running.push(runtime.spawn_blocking(move || {
            for nonce in 0..each {
                handle.insert_seen_message_at(task, nonce, 0);
                handle.set_block_height(nonce);
                handle.set_last_seen(Instant::now());
            }
        }));
    }
    for task in running {
        runtime.block_on(task).unwrap();
    }
    assert_eq!(peer.message_frequency_at(0), 8 * 200);
    assert_eq!(peer.block_height(), each - 1);
}

#[test]
fn the_same_message_seen_by_many_tasks_at_once_is_one_entry() {
    let peer = peer_of_type(NodeType::Client);
    let runtime = tokio::runtime::Builder::new_multi_thread().worker_threads(4).build().unwrap();
    let mut running = Vec::new();
    for task in 0..8u128 {
        let handle = peer.clone();
        running.push(runtime.spawn_blocking(move || {
            for round in 0..100u128 {
                handle.insert_seen_message_at(7, 42, task * 100 + round);
            }
        }));
    }
    for task in running {
        runtime.block_on(task).unwrap();
    }
    assert_eq!(peer.message_frequency_at(0), 1);
}
