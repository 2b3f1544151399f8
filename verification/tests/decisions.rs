use multicast_discovery::connect::{ConnectAction, ConnectEvent, ConnectState, WaitResult};
use multicast_discovery::context::{GlobalCtx, NetworkIdentity};
use multicast_discovery::discovery_manager::{
    addresses_of, has_connector, own_listeners, DiscoveryManager, HandlerAction, HandlerEvent,
    PeerHandling, StartAction,
};
use multicast_discovery::listener::ListenerUrl;
use multicast_discovery::message::MessageType;
use multicast_discovery::multicast_discovery::{
    DiscoveryError, MulticastDiscoveryConnector, PeerManagerRef, Session,
};
use multicast_discovery::peers::DiscoveredPeer;
use multicast_discovery::socket_setup::{
    create_multicast_socket, failure_text, GroupJoin, JoinTarget, SetupProgress, SetupStep,
    MULTICAST_ADDR, MULTICAST_PORT,
};

fn url(text: &str) -> ListenerUrl {
    ListenerUrl::parse(text).unwrap()
}

fn ctx(id: &str, listeners: &[&str], enabled: bool) -> GlobalCtx {
    GlobalCtx {
        id: id.to_string(),
        hostname: "host".to_string(),
        version: "2.0".to_string(),
        network_identity: NetworkIdentity {
            network_name: "net".to_string(),
            network_secret_digest: None,
        },
        running_listeners: listeners.iter().map(|t| url(t)).collect(),
        interface_ipv4s: vec!["10.0.0.5".to_string()],
        interface_ipv6s: vec![],
        enable_multicast_discovery: enabled,
    }
}

fn peer(listeners: &[&str]) -> DiscoveredPeer {
    DiscoveredPeer {
        peer_id: 42,
        listeners: listeners.iter().map(|t| url(t)).collect(),
        hostname: "h".to_string(),
        instance_id: "i".to_string(),
        last_seen: 1,
    }
}

fn running() -> Session {
    Session { socket: true, shutdown_tx: true, peer_tx: true }
}

#[test]
fn test_discovery_manager_creation() {
    let mut manager = DiscoveryManager::new(ctx("a", &[], false), PeerManagerRef::Alive(1));
    assert_eq!(manager.start(), StartAction::Nothing);
    assert!(!manager.stop());
    assert!(manager.list_discovered_multicast_peers().is_empty());
}

#[test]
fn a_manager_starts_discovery_where_it_is_enabled() {
    let mut manager = DiscoveryManager::new(ctx("a", &[], true), PeerManagerRef::Alive(1));
    assert_eq!(manager.start(), StartAction::OpenSocket);
    assert_eq!(
        manager.start_multicast_discovery(Err(SetupStep::CreateSocket)),
        Err(DiscoveryError::Setup(SetupStep::CreateSocket))
    );
    assert!(manager.multicast_connector.is_none());
    assert_eq!(manager.start_multicast_discovery(Ok(())), Ok(running()));
    let other = MulticastDiscoveryConnector::new(ctx("b", &["tcp://0.0.0.0:1"], true));
    let message = other.create_discovery_message(MessageType::Announcement, 1);
    let connector = manager.multicast_connector.as_mut().unwrap();
    connector.handle_received_message(running(), message, 5);
    assert_eq!(manager.list_discovered_multicast_peers().len(), 1);
    manager.refresh(ctx("a", &["tcp://9.9.9.9:1"], true), PeerManagerRef::Alive(2));
    let connector = manager.multicast_connector.as_ref().unwrap();
    assert_eq!(connector.create_discovery_message(MessageType::Query, 1).peer_id, 2);
    assert_eq!(manager.list_discovered_multicast_peers().len(), 1);
    assert_eq!(manager.start_multicast_discovery(Ok(())), Ok(running()));
    assert!(manager.list_discovered_multicast_peers().is_empty());
    assert!(manager.stop());
    assert!(manager.multicast_connector.is_none());
    assert!(!manager.stop());
}

#[test]
fn socket_steps_follow_each_other() {
    let steps = [
        SetupStep::CreateSocket,
        SetupStep::ReuseAddress,
        SetupStep::ReusePort,
        SetupStep::Bind,
        SetupStep::NonBlocking,
        SetupStep::Register,
        SetupStep::Broadcast,
    ];
    for i in 0..steps.len() {
        let next = if i + 1 < steps.len() {
            SetupProgress::Next(steps[i + 1])
        } else {
            SetupProgress::JoinGroup
        };
        assert_eq!(create_multicast_socket(steps[i], true), next);
        let failed = if steps[i] == SetupStep::ReusePort {
            next
        } else {
            SetupProgress::Failed(steps[i])
        };
        assert_eq!(create_multicast_socket(steps[i], false), failed);
    }
}

#[test]
fn failures_are_put_in_words() {
    assert_eq!(failure_text(SetupStep::CreateSocket), "Failed to create socket");
    assert_eq!(failure_text(SetupStep::ReuseAddress), "Failed to set SO_REUSEADDR");
    assert_eq!(
        failure_text(SetupStep::Bind),
        format!("Failed to bind multicast socket to 0.0.0.0:{}", MULTICAST_PORT)
    );
    assert_eq!(failure_text(SetupStep::NonBlocking), "Failed to set non-blocking");
    assert_eq!(failure_text(SetupStep::Register), "Failed to convert to tokio socket");
    assert_eq!(failure_text(SetupStep::Broadcast), "Failed to set broadcast");
    assert_eq!(MULTICAST_ADDR, "224.0.0.251");
}

#[test]
fn interfaces_are_joined_in_turn() {
    let mut join = GroupJoin::new(3);
    for (i, ok) in [false, true, true].into_iter().enumerate() {
        assert_eq!(join.next_target(), JoinTarget::Interface(i));
        join.report(ok);
    }
    assert_eq!(join.next_target(), JoinTarget::Done);
    assert_eq!(join.join_count(), 2);
    join.report(true);
    assert_eq!(join.join_count(), 2);
}

#[test]
fn the_default_interface_is_the_last_resort() {
    for ok in [false, true] {
        let mut join = GroupJoin::new(1);
        join.report(false);
        assert_eq!(join.next_target(), JoinTarget::Default);
        join.report(ok);
        assert_eq!(join.next_target(), JoinTarget::Done);
        assert_eq!(join.join_count(), ok as usize);
    }
    assert_eq!(GroupJoin::new(0).next_target(), JoinTarget::Default);
}

#[test]
fn connecting_starts_discovery_first() {
    let connector = MulticastDiscoveryConnector::new(ctx("a", &[], true));
    let (state, action) = connector.connect();
    assert!(matches!(action, ConnectAction::StartDiscovery));
    let (state, action) = state.advance(ConnectEvent::Started(Ok(())));
    assert!(matches!(action, ConnectAction::AwaitPeer));
    let found = peer(&["tcp://1.1.1.1:1", "udp://1.1.1.1:2"]);
    let (state, action) = state.advance(ConnectEvent::Waited(WaitResult::Peer(found)));
    assert!(matches!(action, ConnectAction::TryListener(ref t) if t == "tcp://1.1.1.1:1"));
    let (state, action) = state.advance(ConnectEvent::Tried(false));
    assert!(matches!(action, ConnectAction::TryListener(ref t) if t == "udp://1.1.1.1:2"));
    let (state, action) = state.advance(ConnectEvent::Tried(true));
    assert!(matches!(action, ConnectAction::Connected));
    assert!(matches!(state, ConnectState::Finished));
}

#[test]
fn connecting_fails_in_words() {
    let fail = |state: ConnectState, event: ConnectEvent| match state.advance(event) {
        (ConnectState::Finished, ConnectAction::Fail(text)) => text,
        other => panic!("{:?}", other),
    };
    assert_eq!(
        fail(ConnectState::Starting, ConnectEvent::Started(Err("no socket".to_string()))),
        "no socket"
    );
    assert_eq!(
        fail(ConnectState::Waiting, ConnectEvent::Waited(WaitResult::Closed)),
        "Discovery channel closed"
    );
    let late = WaitResult::TimedOut("deadline has elapsed".to_string());
    assert_eq!(fail(ConnectState::Waiting, ConnectEvent::Waited(late)), "deadline has elapsed");
    let state = ConnectState::Trying { peer: peer(&["tcp://1.1.1.1:1"]), next: 0 };
    assert_eq!(
        fail(state, ConnectEvent::Tried(false)),
        "Failed to connect to any listeners of peer 42"
    );
    let nothing = WaitResult::Peer(peer(&[]));
    assert_eq!(
        fail(ConnectState::Waiting, ConnectEvent::Waited(nothing)),
        "Failed to connect to any listeners of peer 42"
    );
}

#[test]
fn connecting_uses_the_latest_peer() {
    let mut connector = MulticastDiscoveryConnector::new(ctx("a", &[], true));
    connector.start_discovery(Ok(())).unwrap();
    let (_, action) = connector.connect();
    assert!(matches!(action, ConnectAction::Fail(ref t) if t == "No peers discovered"));
    for (id, port, now) in [("b", "tcp://0.0.0.0:1", 5u128), ("c", "tcp://0.0.0.0:2", 9), ("d", "tcp://0.0.0.0:3", 7)] {
        let other = MulticastDiscoveryConnector::new(ctx(id, &[port], true));
        let number: u32 = now as u32;
        let message = other.discovery_message_from(MessageType::Announcement, number, 1);
        connector.handle_received_message(running(), message, now);
    }
    let (_, action) = connector.connect();
    assert!(matches!(action, ConnectAction::TryListener(ref t) if t == "tcp://10.0.0.5:2"));
    assert_eq!(connector.latest_peer().unwrap().peer_id, 9);
}

#[test]
fn a_found_peer_gets_a_connector_and_a_connection() {
    let here = ctx("a", &["tcp://10.0.0.5:1"], true);
    let found = peer(&["udp://10.0.0.5:1", "tcp://10.0.0.9:1", "udp://10.0.0.9:2"]);
    let (mut handling, action) = DiscoveryManager::handle_discovered_peers(&found, &here);
    assert!(matches!(action, HandlerAction::ListConnectors));
    let action = handling.advance(&here, HandlerEvent::Connectors(vec![None]));
    assert!(matches!(action, HandlerAction::ListConnectors));
    let has = vec![None, Some("tcp://10.0.0.9:1".to_string())];
    let action = handling.advance(&here, HandlerEvent::Connectors(has));
    assert!(matches!(action, HandlerAction::ListConnectors));
    let action = handling.advance(&here, HandlerEvent::Connectors(vec![]));
    assert!(matches!(action, HandlerAction::AddConnector(ref t) if t == "udp://10.0.0.9:2"));
    let action = handling.advance(&here, HandlerEvent::Added(true));
    assert!(matches!(action, HandlerAction::CreateConnector(ref t) if t == "tcp://10.0.0.9:1"));
    let action = handling.advance(&here, HandlerEvent::Created(false));
    assert!(matches!(action, HandlerAction::CreateConnector(ref t) if t == "udp://10.0.0.9:2"));
    let action = handling.advance(&here, HandlerEvent::Created(true));
    assert!(matches!(action, HandlerAction::DirectConnect(ref t) if t == "udp://10.0.0.9:2"));
}

#[test]
fn adding_a_connector_is_tried_for_each_address() {
    let found = peer(&["tcp://10.0.0.9:1", "udp://10.0.0.9:2"]);
    let own = vec![false, false];
    let (mut handling, _) = PeerHandling::begin_with(&found, &own);
    let action = handling.advance_with(&own, HandlerEvent::Connectors(vec![]));
    assert!(matches!(action, HandlerAction::AddConnector(ref t) if t == "tcp://10.0.0.9:1"));
    let action = handling.advance_with(&own, HandlerEvent::Added(false));
    assert!(matches!(action, HandlerAction::ListConnectors));
    let action = handling.advance_with(&own, HandlerEvent::Connectors(vec![]));
    assert!(matches!(action, HandlerAction::AddConnector(ref t) if t == "udp://10.0.0.9:2"));
    let action = handling.advance_with(&own, HandlerEvent::Added(false));
    assert!(matches!(action, HandlerAction::CreateConnector(ref t) if t == "tcp://10.0.0.9:1"));
    let action = handling.advance_with(&own, HandlerEvent::Created(false));
    assert!(matches!(action, HandlerAction::CreateConnector(ref t) if t == "udp://10.0.0.9:2"));
    let action = handling.advance_with(&own, HandlerEvent::Created(false));
    assert!(matches!(action, HandlerAction::Done));
}

#[test]
fn a_peer_that_is_the_node_itself_is_left_alone() {
    let here = ctx("a", &["tcp://10.0.0.5:1", "tcp://10.0.0.5:2"], true);
    let found = peer(&["udp://10.0.0.5:1", "wg://10.0.0.5:2"]);
    assert_eq!(own_listeners(&here, &addresses_of(&found)), vec![true, true]);
    let (mut handling, action) = DiscoveryManager::handle_discovered_peers(&found, &here);
    assert!(matches!(action, HandlerAction::ListConnectors));
    let action = handling.advance(&here, HandlerEvent::Connectors(vec![]));
    assert!(matches!(action, HandlerAction::ListConnectors));
    let action = handling.advance(&here, HandlerEvent::Connectors(vec![]));
    assert!(matches!(action, HandlerAction::Done));
    let (_, action) = DiscoveryManager::handle_discovered_peers(&peer(&[]), &here);
    assert!(matches!(action, HandlerAction::Done));
}

#[test]
fn connectors_are_found_by_address() {
    let address = "tcp://a:1".to_string();
    assert!(!has_connector(&vec![], &address));
    assert!(!has_connector(&vec![None, Some("tcp://a:2".to_string())], &address));
    assert!(has_connector(&vec![None, Some("tcp://a:1".to_string())], &address));
}

#[test]
fn unexpected_events_are_told_apart() {
    assert!(ConnectState::Starting.awaits(&ConnectEvent::Started(Ok(()))));
    assert!(!ConnectState::Starting.awaits(&ConnectEvent::Tried(true)));
    assert!(ConnectState::Waiting.awaits(&ConnectEvent::Waited(WaitResult::Closed)));
    assert!(!ConnectState::Finished.awaits(&ConnectEvent::Tried(false)));
    let found = peer(&["tcp://10.0.0.9:1"]);
    let (handling, _) = PeerHandling::begin_with(&found, &vec![false]);
    assert!(handling.awaits(&HandlerEvent::Connectors(vec![])));
    assert!(!handling.awaits(&HandlerEvent::Added(true)));
    assert!(!handling.awaits(&HandlerEvent::Created(true)));
}
