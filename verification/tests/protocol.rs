use multicast_discovery::context::{GlobalCtx, NetworkIdentity};
use multicast_discovery::listener::ListenerUrl;
use multicast_discovery::message::{CodecError, DiscoveryMessage, MessageType};
use multicast_discovery::multicast_discovery::{
    same_digest, Acceptance, DiscoveryError, IgnoreReason, LoopEvent, LoopState, LoopStep, MessageOutcome,
    MulticastDiscoveryConnector, PeerManagerRef, Session,
};
use multicast_discovery::peers::{still_fresh, DiscoveredPeer, PeerTable, PEER_TTL_NANOS};
use multicast_discovery::socket_setup::SetupStep;

fn ctx(id: &str, network: &str, digest: Option<[u8; 32]>) -> GlobalCtx {
    GlobalCtx {
        id: id.to_string(),
        hostname: format!("{}-host", id),
        version: "2.0".to_string(),
        network_identity: NetworkIdentity {
            network_name: network.to_string(),
            network_secret_digest: digest,
        },
        running_listeners: vec![ListenerUrl::parse("tcp://0.0.0.0:11010").unwrap()],
        interface_ipv4s: vec!["10.0.0.5".to_string()],
        interface_ipv6s: vec![],
        enable_multicast_discovery: true,
    }
}

fn node(id: &str, number: u32) -> MulticastDiscoveryConnector {
    MulticastDiscoveryConnector::new_with_peer_manager(
        ctx(id, "net", None),
        PeerManagerRef::Alive(number),
    )
}

fn running() -> Session {
    Session { socket: true, shutdown_tx: true, peer_tx: true }
}

fn stopped() -> Session {
    Session { socket: false, shutdown_tx: false, peer_tx: false }
}

fn peer(id: u32, last_seen: u128) -> DiscoveredPeer {
    DiscoveredPeer {
        peer_id: id,
        listeners: vec![ListenerUrl::parse("tcp://10.0.0.9:1").unwrap()],
        hostname: "h".to_string(),
        instance_id: "i".to_string(),
        last_seen,
    }
}

fn ids(peers: Vec<DiscoveredPeer>) -> Vec<u32> {
    let mut r: Vec<u32> = peers.iter().map(|p| p.peer_id).collect();
    r.sort();
    r
}

fn accepted(outcome: MessageOutcome) -> Acceptance {
    match outcome {
        MessageOutcome::Accepted(a) => a,
        MessageOutcome::Ignored(reason) => panic!("ignored: {:?}", reason),
    }
}

fn ignored(outcome: MessageOutcome) -> IgnoreReason {
    match outcome {
        MessageOutcome::Accepted(_) => panic!("accepted"),
        MessageOutcome::Ignored(reason) => reason,
    }
}

fn is_quiet(step: &LoopStep) -> bool {
    step.next == LoopState::Waiting && step.send.is_none() && step.notify.is_none()
        && step.error.is_none()
}

#[test]
fn a_message_tells_what_the_node_is() {
    let m = node("a", 7).create_discovery_message(MessageType::Query, 99);
    assert_eq!(m.message_type, MessageType::Query);
    assert_eq!(m.peer_id, 7);
    assert_eq!(m.network_name, "net");
    assert_eq!(m.network_secret_digest, None);
    assert_eq!(m.listeners, vec!["tcp://10.0.0.5:11010".to_string()]);
    assert_eq!(m.hostname, "a-host");
    assert_eq!(m.instance_id, "a");
    assert_eq!(m.version, "2.0");
    assert_eq!(m.timestamp, 99);
}

#[test]
fn a_number_is_made_up_without_a_manager() {
    let c = MulticastDiscoveryConnector::new(ctx("a", "net", None));
    let first = c.local_peer_id();
    assert!((0..64).any(|_| c.local_peer_id() != first));
    let stale = MulticastDiscoveryConnector::new_with_peer_manager(
        ctx("a", "net", None),
        PeerManagerRef::Stale,
    );
    let first = stale.local_peer_id();
    assert!((0..64).any(|_| stale.local_peer_id() != first));
    assert_eq!(c.discovery_message_from(MessageType::Response, 5, 1).peer_id, 5);
}

#[test]
fn own_messages_are_ignored() {
    let mut a = node("a", 7);
    let m = a.create_discovery_message(MessageType::Query, 1);
    assert_eq!(ignored(a.handle_received_message(running(), m, 5)), IgnoreReason::OwnMessage);
    assert_eq!(a.peer_count(), 0);
}

#[test]
fn other_networks_are_ignored() {
    let mut a = node("a", 7);
    let b = MulticastDiscoveryConnector::new(ctx("b", "elsewhere", None));
    let m = b.create_discovery_message(MessageType::Query, 1);
    assert_eq!(ignored(a.handle_received_message(running(), m, 5)), IgnoreReason::OtherNetwork);
    assert_eq!(a.peer_count(), 0);
}

#[test]
fn secrets_count_where_both_have_one() {
    let with = |d: Option<[u8; 32]>, id: &str| MulticastDiscoveryConnector::new(ctx(id, "net", d));
    let mut other = [1u8; 32];
    other[31] = 2;
    let mut a = with(Some([1u8; 32]), "a");
    let m = with(Some(other), "b").create_discovery_message(MessageType::Announcement, 1);
    assert_eq!(ignored(a.handle_received_message(running(), m, 5)), IgnoreReason::SecretMismatch);
    let m = with(Some([1u8; 32]), "b").create_discovery_message(MessageType::Announcement, 1);
    accepted(a.handle_received_message(running(), m, 5));
    let m = with(None, "c").create_discovery_message(MessageType::Announcement, 1);
    accepted(a.handle_received_message(running(), m, 5));
    let m = with(Some(other), "d").create_discovery_message(MessageType::Announcement, 1);
    accepted(with(None, "e").handle_received_message(running(), m, 5));
    assert!(same_digest(&other, &other));
    assert!(!same_digest(&other, &[1u8; 32]));
}

#[test]
fn a_node_without_readable_addresses_is_ignored() {
    let mut a = node("a", 7);
    let mut m = node("b", 8).create_discovery_message(MessageType::Query, 1);
    m.listeners = vec!["nonsense".to_string()];
    assert_eq!(ignored(a.handle_received_message(running(), m, 5)), IgnoreReason::NoListeners);
    let m = node("b", 8).create_discovery_message(MessageType::Query, 1);
    assert_eq!(ignored(a.consider_message(running(), m, vec![], 5)), IgnoreReason::NoListeners);
    assert_eq!(a.peer_count(), 0);
}

#[test]
fn a_heard_node_is_filed() {
    let mut a = node("a", 7);
    let mut m = node("b", 8).create_discovery_message(MessageType::Query, 1);
    m.listeners.push("nonsense".to_string());
    m.listeners.push("udp://10.0.0.5:11011".to_string());
    let got = accepted(a.handle_received_message(running(), m, 5));
    assert!(got.is_new);
    assert!(got.notify);
    assert!(got.respond);
    assert_eq!(got.peer.peer_id, 8);
    assert_eq!(got.peer.hostname, "b-host");
    assert_eq!(got.peer.instance_id, "b");
    assert_eq!(got.peer.last_seen, 5);
    let texts: Vec<&str> = got.peer.listeners.iter().map(|u| u.text.as_str()).collect();
    assert_eq!(texts, vec!["tcp://10.0.0.5:11010", "udp://10.0.0.5:11011"]);
    let listed = a.list_discovered_peers();
    assert_eq!(listed.len(), 1);
    assert_eq!(listed[0].peer_id, 8);
    assert_eq!(listed[0].listeners.len(), 2);
}

#[test]
fn the_last_word_counts() {
    let mut a = node("a", 7);
    let m = node("b", 8).create_discovery_message(MessageType::Announcement, 1);
    assert!(accepted(a.handle_received_message(running(), m, 5)).is_new);
    let mut m = node("b", 8).create_discovery_message(MessageType::Announcement, 1);
    m.hostname = "renamed".to_string();
    let got = accepted(a.handle_received_message(stopped(), m, 6));
    assert!(!got.is_new);
    assert!(!got.notify);
    assert!(!got.respond);
    let listed = a.list_discovered_peers();
    assert_eq!(listed.len(), 1);
    assert_eq!(listed[0].hostname, "renamed");
    assert_eq!(listed[0].last_seen, 6);
}

#[test]
fn a_datagram_is_read_and_dealt_with() {
    let mut a = node("a", 7);
    let bytes = node("b", 8).create_discovery_message(MessageType::Query, 1).encode().unwrap();
    assert!(accepted(a.receive_message(running(), &bytes, 5).unwrap()).respond);
    let refused = a.receive_message(running(), &bytes[1..], 5);
    assert!(matches!(refused, Err(DiscoveryError::Codec(CodecError::Deserialize))));
    assert_eq!(a.peer_count(), 1);
}

#[test]
fn sending_needs_a_socket() {
    let a = node("a", 7);
    let m = a.create_discovery_message(MessageType::Query, 1);
    assert_eq!(a.send_discovery_message(stopped(), &m).err(), Some(DiscoveryError::NotStarted));
    assert_eq!(a.send_discovery_message(running(), &m).unwrap(), m.encode().unwrap());
}

#[test]
fn the_loop_needs_a_socket() {
    let mut a = node("a", 7);
    let r = a.discovery_loop(stopped(), LoopState::Waiting, LoopEvent::Tick { timestamp: 1 });
    assert_eq!(r.err(), Some(DiscoveryError::NotStarted));
}

#[test]
fn the_loop_asks_first_and_then_announces() {
    let mut a = node("a", 7);
    let step = a.discovery_loop(running(), LoopState::Starting, LoopEvent::Started { timestamp: 3 }).unwrap();
    let m = DiscoveryMessage::decode(&step.send.unwrap()).unwrap();
    assert_eq!((m.message_type, m.peer_id, m.timestamp), (MessageType::Query, 7, 3));
    let step = a.discovery_loop(running(), LoopState::Waiting, LoopEvent::Tick { timestamp: 4 }).unwrap();
    let m = DiscoveryMessage::decode(&step.send.unwrap()).unwrap();
    assert_eq!((m.message_type, m.peer_id, m.timestamp), (MessageType::Announcement, 7, 4));
    assert_eq!(step.next, LoopState::Announcing);
    assert!(step.notify.is_none() && step.error.is_none());
}

#[test]
fn the_loop_stops_when_told() {
    let mut a = node("a", 7);
    let step = a.discovery_loop(running(), LoopState::Waiting, LoopEvent::Shutdown).unwrap();
    assert_eq!(step.next, LoopState::Stopped);
    assert!(step.send.is_none() && step.notify.is_none() && step.error.is_none());
    assert!(is_quiet(&a.discovery_loop(running(), LoopState::Waiting, LoopEvent::ReceiveFailed).unwrap()));
}

#[test]
fn the_loop_answers_queries_only() {
    let b = node("b", 8);
    for t in [MessageType::Announcement, MessageType::Query, MessageType::Response] {
        let mut a = node("a", 7);
        let bytes = b.create_discovery_message(t, 1).encode().unwrap();
        let event = LoopEvent::Datagram { bytes, timestamp: 50, now: 5 };
        let step = a.discovery_loop(running(), LoopState::Waiting, event).unwrap();
        assert_eq!(step.notify.unwrap().peer_id, 8);
        assert!(step.next == LoopState::Waiting && step.error.is_none());
        match step.send {
            Some(bytes) => {
                assert_eq!(t, MessageType::Query);
                let m = DiscoveryMessage::decode(&bytes).unwrap();
                assert_eq!(m.message_type, MessageType::Response);
                assert_eq!((m.peer_id, m.timestamp), (7, 50));
                assert_eq!(m.instance_id, "a");
            }
            None => assert_ne!(t, MessageType::Query),
        }
        assert_eq!(a.peer_count(), 1);
    }
}

#[test]
fn the_loop_passes_over_strangers_and_noise() {
    let mut a = node("a", 7);
    let bytes = a.create_discovery_message(MessageType::Query, 1).encode().unwrap();
    let event = LoopEvent::Datagram { bytes, timestamp: 50, now: 5 };
    let step = a.discovery_loop(running(), LoopState::Waiting, event).unwrap();
    assert!(is_quiet(&step));
    assert_eq!(step.ignored, Some(IgnoreReason::OwnMessage));
    let mut other = MulticastDiscoveryConnector::new(ctx("c", "net", Some([1u8; 32])));
    let strange = MulticastDiscoveryConnector::new(ctx("d", "net", Some([2u8; 32])));
    let bytes = strange.create_discovery_message(MessageType::Query, 1).encode().unwrap();
    let event = LoopEvent::Datagram { bytes, timestamp: 50, now: 5 };
    let step = other.discovery_loop(running(), LoopState::Waiting, event).unwrap();
    assert!(is_quiet(&step));
    assert_eq!(step.ignored, Some(IgnoreReason::SecretMismatch));
    let event = LoopEvent::Datagram { bytes: vec![1, 2, 3], timestamp: 50, now: 5 };
    let step = a.discovery_loop(running(), LoopState::Waiting, event).unwrap();
    assert_eq!(step.error, Some(DiscoveryError::Codec(CodecError::Deserialize)));
    assert!(step.ignored.is_none());
    assert!(step.next == LoopState::Waiting && step.send.is_none() && step.notify.is_none());
    assert_eq!(a.peer_count(), 0);
}

#[test]
fn the_loop_forgets_after_announcing() {
    let mut a = node("a", 7);
    for (id, number, now) in [("b", 8, 10u128), ("c", 9, 20)] {
        let m = node(id, number).create_discovery_message(MessageType::Announcement, 1);
        a.handle_received_message(running(), m, now);
    }
    let event = LoopEvent::AnnouncementDone { now: 10 + PEER_TTL_NANOS };
    assert!(is_quiet(&a.discovery_loop(running(), LoopState::Announcing, event).unwrap()));
    assert_eq!(ids(a.list_discovered_peers()), vec![9]);
    a.cleanup_stale_peers(20 + PEER_TTL_NANOS);
    assert_eq!(a.peer_count(), 0);
}

#[test]
fn freshness_ends_with_the_time_to_live() {
    assert_eq!(PEER_TTL_NANOS, 90 * 1_000_000_000);
    assert!(still_fresh(100, 100 + PEER_TTL_NANOS - 1));
    assert!(!still_fresh(100, 100 + PEER_TTL_NANOS));
    assert!(still_fresh(u128::MAX, 0));
    assert!(!still_fresh(0, u128::MAX));
    assert!(still_fresh(100, 100 + 80 * 1_000_000_000));
}

#[test]
fn the_table_keeps_one_entry_per_peer() {
    let mut t = PeerTable::new();
    assert!(t.latest().is_none());
    assert!(t.list().is_empty());
    assert!(t.record(peer(1, 10)));
    assert!(t.record(peer(2, 30)));
    assert!(t.record(peer(3, 20)));
    assert!(!t.record(peer(1, 15)));
    assert_eq!(t.len(), 3);
    assert_eq!(ids(t.list()), vec![1, 2, 3]);
    let latest = t.latest().unwrap();
    assert_eq!((latest.peer_id, latest.last_seen), (2, 30));
    t.remove_stale(20 + PEER_TTL_NANOS);
    assert_eq!(ids(t.list()), vec![2]);
    t.remove_stale(20 + PEER_TTL_NANOS);
    assert_eq!(ids(t.list()), vec![2]);
}

#[test]
fn discovery_starts_once_and_stops() {
    let mut a = node("a", 7);
    let m = node("b", 8).create_discovery_message(MessageType::Announcement, 1);
    a.handle_received_message(running(), m, 5);
    assert_eq!(a.session(), stopped());
    assert!(a.check_startable().is_ok());
    assert_eq!(
        a.start_discovery(Err(SetupStep::Bind)),
        Err(DiscoveryError::Setup(SetupStep::Bind))
    );
    assert_eq!(a.session(), stopped());
    assert_eq!(a.start_discovery(Ok(())), Ok(running()));
    assert_eq!(a.session(), running());
    assert_eq!(a.check_startable(), Err(DiscoveryError::AlreadyStarted));
    assert_eq!(a.start_discovery(Ok(())), Err(DiscoveryError::AlreadyStarted));
    assert_eq!(
        a.start_discovery(Err(SetupStep::Bind)),
        Err(DiscoveryError::AlreadyStarted)
    );
    assert!(a.stop_discovery());
    assert!(!a.stop_discovery());
    assert_eq!(a.session(), stopped());
    assert_eq!(a.peer_count(), 1);
    assert_eq!(a.start_discovery(Ok(())), Ok(running()));
}

#[test]
fn a_refresh_changes_what_is_said_and_nothing_else() {
    let mut a = node("a", 7);
    let m = node("b", 8).create_discovery_message(MessageType::Announcement, 1);
    a.handle_received_message(running(), m, 5);
    let mut now = ctx("a", "net", None);
    now.running_listeners.push(ListenerUrl::parse("udp://10.0.0.5:4").unwrap());
    a.refresh(now, PeerManagerRef::Alive(70));
    let m = a.create_discovery_message(MessageType::Announcement, 1);
    assert_eq!(m.peer_id, 70);
    assert_eq!(m.listeners.len(), 2);
    assert_eq!(a.peer_count(), 1);
}

#[test]
fn a_query_introduces_two_nodes() {
    let mut a = node("a", 7);
    let mut b = node("b", 8);
    let query = a.discovery_loop(running(), LoopState::Starting, LoopEvent::Started { timestamp: 1 }).unwrap();
    let bytes = query.send.unwrap();
    let answer = b
        .discovery_loop(running(), LoopState::Waiting, LoopEvent::Datagram { bytes, timestamp: 2, now: 20 })
        .unwrap();
    let bytes = answer.send.unwrap();
    let last = a
        .discovery_loop(running(), LoopState::Waiting, LoopEvent::Datagram { bytes, timestamp: 3, now: 30 })
        .unwrap();
    assert!(last.send.is_none());
    let known = a.list_discovered_peers();
    assert_eq!((known[0].peer_id, known[0].instance_id.as_str()), (8, "b"));
    let known = b.list_discovered_peers();
    assert_eq!((known[0].peer_id, known[0].instance_id.as_str()), (7, "a"));
}

#[test]
fn the_loop_waits_for_one_thing_after_another() {
    let started = LoopEvent::Started { timestamp: 1 };
    let tick = LoopEvent::Tick { timestamp: 1 };
    let done = LoopEvent::AnnouncementDone { now: 1 };
    let datagram = LoopEvent::Datagram { bytes: vec![], timestamp: 1, now: 1 };
    let outside = [tick, datagram, LoopEvent::Shutdown, LoopEvent::ReceiveFailed];
    let states =
        [LoopState::Starting, LoopState::Waiting, LoopState::Announcing, LoopState::Stopped];
    for state in states {
        assert_eq!(state.awaits(&started), state == LoopState::Starting);
        assert_eq!(state.awaits(&done), state == LoopState::Announcing);
        for event in &outside {
            assert_eq!(state.awaits(event), state == LoopState::Waiting);
        }
    }
    let mut a = node("a", 7);
    let step = a.discovery_loop(running(), LoopState::Starting, started).unwrap();
    assert_eq!(step.next, LoopState::Waiting);
    let step = a
        .discovery_loop(running(), step.next, LoopEvent::Tick { timestamp: 2 })
        .unwrap();
    assert_eq!(step.next, LoopState::Announcing);
    let step = a.discovery_loop(running(), step.next, done).unwrap();
    assert_eq!(step.next, LoopState::Waiting);
}

#[test]
fn version_and_time_make_no_difference() {
    let outcome = |version: &str, timestamp: u64| {
        let mut a = node("a", 7);
        let mut m = node("b", 8).create_discovery_message(MessageType::Query, timestamp);
        m.version = version.to_string();
        let got = accepted(a.handle_received_message(running(), m, 5));
        format!("{:?} {:?}", got, a.list_discovered_peers())
    };
    assert_eq!(outcome("2.0", 1), outcome("0.1", u64::MAX));
}

#[test]
fn a_managed_node_keeps_its_number() {
    let a = node("a", 7);
    for _ in 0..8 {
        assert_eq!(a.create_discovery_message(MessageType::Announcement, 1).peer_id, 7);
    }
}

#[test]
fn errors_are_put_in_words() {
    assert_eq!(DiscoveryError::AlreadyStarted.text(), Some("Discovery already started"));
    assert_eq!(DiscoveryError::NotStarted.text(), None);
    assert_eq!(
        DiscoveryError::Setup(SetupStep::CreateSocket).text(),
        Some("Failed to create socket")
    );
    assert_eq!(
        DiscoveryError::Codec(CodecError::Serialize).text(),
        Some("Failed to serialize discovery message")
    );
    assert_eq!(
        DiscoveryError::Codec(CodecError::Deserialize).text(),
        Some("Failed to deserialize discovery message")
    );
}

#[test]
fn nobody_listed_is_the_node_itself() {
    let mut a = node("a", 7);
    for other in [node("a", 9), node("b", 8), node("c", 8), node("d", 10)] {
        let m = other.create_discovery_message(MessageType::Announcement, 1);
        a.handle_received_message(running(), m, 5);
    }
    let listed = a.list_discovered_peers();
    assert!(listed.iter().all(|p| p.instance_id != "a" && !p.listeners.is_empty()));
    assert_eq!(ids(listed), vec![8, 10]);
    assert!(a.is_same_instance(&ctx("a", "elsewhere", None)));
    assert!(!a.is_same_instance(&ctx("b", "net", None)));
}

#[test]
fn handles_have_sessions_of_their_own() {
    let mut a = node("a", 7);
    a.start_discovery(Ok(())).unwrap();
    let m = node("b", 8).create_discovery_message(MessageType::Announcement, 1);
    a.handle_received_message(running(), m, 5);
    a.switch_session(stopped());
    assert_eq!(a.session(), stopped());
    assert_eq!(a.peer_count(), 1);
    assert!(!a.stop_discovery());
    a.switch_session(running());
    assert_eq!(a.check_startable(), Err(DiscoveryError::AlreadyStarted));
    assert!(a.stop_discovery());
    assert_eq!(a.peer_count(), 1);
}
