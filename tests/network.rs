use cw_ho::error::CommonwareNetworkError;
use cw_ho::identity::{NodeIdentity, NodePrivKey};
use cw_ho::manager::{CwHoNetworkManifold, ManagerState, Recipients};
use cw_ho::netutil::NetworkUtils;
use cw_ho::topology::NetworkTopology;
use cw_ho::types::{NodeInfo, NodeType};
use cw_ho::wire::{
    ChannelConfig, EventType, MessageType, NetworkConfig, NetworkEvent, NetworkMessage,
    NodeAnnounce, Request, Response, TetrahedralPing,
};

fn node(id: &str, role: NodeType, online: bool) -> NodeInfo {
    NodeInfo { node_id: id.to_string(), node_type: role.as_str_name().to_string(), online, last_seen: 0 }
}

fn identity(role: NodeType, seed: u64) -> NodeIdentity {
    let mut id = NodeIdentity::default();
    id.host = "127.0.0.1".to_string();
    id.p2p_port = 26969;
    id.api_port = 8080;
    id.node_type = role.as_str_name().to_string();
    id.set_keypair(NodePrivKey::from_seed(seed));
    id
}

fn config() -> NetworkConfig {
    NetworkConfig {
        channels: Some(ChannelConfig { discovery_buffer: 10, task_buffer: 10, state_buffer: 10, health_buffer: 10 }),
        ..Default::default()
    }
}

fn full_tetrahedron() -> NetworkTopology {
    let mut t = NetworkTopology::new();
    t.add_node(node("c", NodeType::Coordinator, true));
    t.add_node(node("e", NodeType::Executor, true));
    t.add_node(node("r", NodeType::Referee, true));
    t.add_node(node("d", NodeType::Development, true));
    t
}

#[test]
fn test_network_utils() {
    let (host, port) = NetworkUtils::parse_address("127.0.0.1:8080").unwrap();
    assert_eq!(host, "127.0.0.1");
    assert_eq!(port, 8080);

    let address = NetworkUtils::format_address(&host, port);
    assert_eq!(address, "127.0.0.1:8080");
}

#[test]
fn parse_address_edge_cases() {
    assert!(NetworkUtils::parse_address("localhost").is_err());
    assert!(NetworkUtils::parse_address("host:").is_err());
    assert!(NetworkUtils::parse_address("host:65536").is_err());
    assert!(NetworkUtils::parse_address("host:8a").is_err());
    assert_eq!(NetworkUtils::parse_address("::1:+22").unwrap(), ("::1".to_string(), 22));
    assert_eq!(NetworkUtils::parse_address("h:65535").unwrap(), ("h".to_string(), 65535));
    assert_eq!(NetworkUtils::validate_port(0).is_err(), true);
    assert_eq!(NetworkUtils::validate_port(65536).is_err(), true);
    assert_eq!(NetworkUtils::validate_port(443).unwrap(), 443);
    assert_eq!(NetworkUtils::format_address("a", 0), "a:0");
}

#[test]
fn add_connection_is_idempotent() {
    let mut t = NetworkTopology::new();
    t.add_connection("a".to_string(), "b".to_string());
    t.add_connection("a".to_string(), "b".to_string());
    assert_eq!(t.connections().len(), 1);
    t.add_connection("b".to_string(), "a".to_string());
    assert_eq!(t.connections().len(), 1);
    assert!(t.has_connection("a", "b"));
    assert_eq!(t.has_connection("a", "b"), t.has_connection("b", "a"));
    assert!(!t.has_connection("a", "c"));
}

#[test]
fn tetrahedron_needs_four_online_nodes() {
    let mut t = NetworkTopology::new();
    t.add_node(node("c", NodeType::Coordinator, true));
    t.add_node(node("e", NodeType::Executor, true));
    t.add_node(node("r", NodeType::Referee, true));
    t.add_node(node("d", NodeType::Development, false));
    for (a, b) in [("c", "e"), ("c", "r"), ("c", "d"), ("e", "r"), ("e", "d"), ("r", "d")] {
        t.add_connection(a.to_string(), b.to_string());
    }
    assert!(!t.is_complete_tetrahedron());
}

#[test]
fn tetrahedron_needs_every_role() {
    let mut t = NetworkTopology::new();
    t.add_node(node("c", NodeType::Coordinator, true));
    t.add_node(node("e", NodeType::Executor, true));
    t.add_node(node("r", NodeType::Referee, true));
    t.add_node(node("x", NodeType::Executor, true));
    for (a, b) in [("c", "e"), ("c", "r"), ("c", "x"), ("e", "r"), ("e", "x"), ("r", "x")] {
        t.add_connection(a.to_string(), b.to_string());
    }
    assert!(!t.is_complete_tetrahedron());
}

#[test]
fn tetrahedron_needs_six_edges() {
    let mut t = full_tetrahedron();
    for (a, b) in [("c", "e"), ("c", "r"), ("c", "d"), ("e", "r"), ("e", "d")] {
        t.add_connection(a.to_string(), b.to_string());
    }
    assert!(!t.is_complete_tetrahedron());
    t.add_connection("r".to_string(), "d".to_string());
    assert!(t.is_complete_tetrahedron());
    let stats = t.stats();
    assert_eq!(stats.total_nodes, 4);
    assert_eq!(stats.online_nodes, 4);
    assert_eq!(stats.total_connections, 6);
    assert!(stats.is_complete);
    assert_eq!(stats.nodes_by_type.len(), 4);
    assert!(stats.nodes_by_type.iter().all(|(_, n)| *n == 1));
}

#[test]
fn remove_node_prunes_its_links() {
    let mut t = full_tetrahedron();
    t.add_connection("c".to_string(), "e".to_string());
    t.add_connection("r".to_string(), "c".to_string());
    t.add_connection("e".to_string(), "d".to_string());
    t.remove_node("c");
    assert_eq!(t.nodes().len(), 3);
    assert!(t.nodes().iter().all(|n| n.node_id != "c"));
    assert_eq!(t.connections().len(), 1);
    assert!(t.has_connection("d", "e"));
    assert!(!t.has_connection("c", "e"));
}

#[test]
fn add_node_replaces_same_id() {
    let mut t = NetworkTopology::new();
    t.add_node(node("a", NodeType::Referee, true));
    t.add_node(node("a", NodeType::Executor, false));
    assert_eq!(t.nodes().len(), 1);
    assert_eq!(t.nodes()[0].node_type, "NODE_TYPE_EXECUTOR");
    assert!(t.online_nodes().is_empty());
    assert_eq!(t.nodes_by_type(NodeType::Executor).len(), 1);
    assert!(t.nearest_node_of_type(NodeType::Executor).is_none());
    t.add_node(node("b", NodeType::Executor, true));
    assert_eq!(t.nearest_node_of_type(NodeType::Executor).unwrap().node_id, "b");
}

#[test]
fn node_type_names_round_trip() {
    for t in [NodeType::Unspecified, NodeType::Coordinator, NodeType::Executor, NodeType::Referee, NodeType::Development] {
        assert_eq!(NodeType::from_str_name(t.as_str_name()), Some(t));
        assert_eq!(NodeType::from_code(t.code()), Some(t));
    }
    assert_eq!(NodeType::from_str_name("EXECUTOR"), None);
    assert_eq!(NodeType::Executor.as_str_name(), "NODE_TYPE_EXECUTOR");
}

#[test]
fn channel_table() {
    let announce = NetworkMessage { message_type: Some(MessageType::NodeAnnounce(NodeAnnounce::default())) };
    let ping = NetworkMessage { message_type: Some(MessageType::TetrahedralPing(TetrahedralPing::default())) };
    let req = NetworkMessage { message_type: Some(MessageType::Request(Request::default())) };
    assert_eq!(announce.channel(), Some(0));
    assert_eq!(ping.channel(), Some(3));
    assert_eq!(req.channel(), Some(1));
    assert_eq!(NetworkMessage::default().channel(), None);
    assert_eq!(ChannelConfig::new().buffer_for(1), Some(1000));
    assert_eq!(ChannelConfig::new().buffer_for(4), None);
}

#[test]
fn new_requires_private_key() {
    let mut id = identity(NodeType::Coordinator, 1);
    id.private_key = None;
    assert_eq!(CwHoNetworkManifold::new(id, 0).err(), Some(CommonwareNetworkError::NodePrivKeyNotFound));
}

#[test]
fn new_manager_seeds_topology_with_self() {
    let id = identity(NodeType::Coordinator, 1);
    let m = CwHoNetworkManifold::new(id, 5000).unwrap();
    assert_eq!(m.state(), ManagerState::Uninitialized);
    let nodes = m.get_topology().nodes();
    assert_eq!(nodes.len(), 1);
    assert_eq!(nodes[0].node_type, "NODE_TYPE_COORDINATOR");
    assert!(nodes[0].online);
    assert_eq!(nodes[0].last_seen, 5);
}

#[test]
fn start_network_plans_four_channels_and_rejects_second_start() {
    let mut m = CwHoNetworkManifold::new(identity(NodeType::Coordinator, 1), 0).unwrap();
    let plan = m.start_network(&config()).unwrap();
    assert_eq!(plan.channels.len(), 4);
    assert_eq!(plan.namespace, "cw-ho-network");
    assert_eq!(plan.listen_address, "127.0.0.1:26969");
    for (i, c) in plan.channels.iter().enumerate() {
        assert_eq!(c.channel as usize, i);
        assert_eq!(c.rate_per_second, 100);
        assert_eq!(c.buffer, 10);
    }
    assert!(m.is_running());
    assert_eq!(m.start_network(&config()).err(), Some(CommonwareNetworkError::AlreadyStarted));
}

#[test]
fn start_network_without_channels_is_config_error() {
    let mut m = CwHoNetworkManifold::new(identity(NodeType::Coordinator, 1), 0).unwrap();
    assert!(matches!(m.start_network(&NetworkConfig::default()), Err(CommonwareNetworkError::ConfigError(_))));
    assert_eq!(m.state(), ManagerState::Uninitialized);
}

#[test]
fn send_to_role_without_peers() {
    let mut m = CwHoNetworkManifold::new(identity(NodeType::Coordinator, 1), 0).unwrap();
    m.start_network(&config()).unwrap();
    let msg = NetworkMessage { message_type: Some(MessageType::Request(Request::default())) };
    assert_eq!(m.send_to_role(NodeType::Executor, msg).err(), Some(CommonwareNetworkError::NoPeersForRole("Executor".to_string())));
}

#[test]
fn send_before_start_is_not_initialized() {
    let mut m = CwHoNetworkManifold::new(identity(NodeType::Coordinator, 1), 0).unwrap();
    let msg = NetworkMessage { message_type: Some(MessageType::Request(Request::default())) };
    assert_eq!(m.broadcast(msg).err(), Some(CommonwareNetworkError::NotInitialized));
}

#[test]
fn subscribe_twice_fails() {
    let mut m = CwHoNetworkManifold::new(identity(NodeType::Coordinator, 1), 0).unwrap();
    assert!(m.subscribe().is_ok());
    assert_eq!(m.subscribe(), Err(CommonwareNetworkError::EventStreamTaken));
}

fn announce_from(a: &mut CwHoNetworkManifold) -> NetworkMessage {
    a.announce_node().unwrap().message
}

#[test]
fn announce_reaches_other_manager() {
    let mut a = CwHoNetworkManifold::new(identity(NodeType::Coordinator, 1), 0).unwrap();
    let mut b = CwHoNetworkManifold::new(identity(NodeType::Executor, 2), 0).unwrap();
    a.start_network(&config()).unwrap();
    b.start_network(&config()).unwrap();
    let out = a.announce_node().unwrap();
    assert_eq!(out.channel, 0);
    assert_eq!(out.recipients, Recipients::All);
    let a_key = NodePrivKey::from_seed(1).id().0.to_vec();
    let a_id: String = a_key.iter().map(|x| format!("{:02x}", x)).collect();
    b.handle_inbound(a_key.clone(), out.channel, Some(out.message), 10_000);
    let events = b.take_events();
    assert_eq!(events.len(), 2);
    match &events[0].event_type {
        Some(EventType::PeerConnected(p)) => {
            assert_eq!(p.peer_id, a_key);
            assert_eq!(p.node_info.as_ref().unwrap().node_type, "NODE_TYPE_COORDINATOR");
        },
        _ => panic!("expected a connect event"),
    }
    match &events[1].event_type {
        Some(EventType::MessageReceived(r)) => assert_eq!(r.channel, 0),
        _ => panic!("expected a received message"),
    }
    let nodes = b.get_topology().nodes();
    assert!(nodes.iter().any(|n| n.node_id == a_id && n.node_type == "NODE_TYPE_COORDINATOR" && n.online));
    assert_eq!(b.peer_count(), 1);
    let msg = NetworkMessage { message_type: Some(MessageType::Request(Request::default())) };
    let sent = b.send_to_role(NodeType::Coordinator, msg).unwrap();
    assert_eq!(sent.recipients, Recipients::Listed(vec![a_key]));
    assert_eq!(sent.channel, 1);
}

#[test]
fn stale_peer_is_evicted_on_tick() {
    let mut a = CwHoNetworkManifold::new(identity(NodeType::Coordinator, 1), 0).unwrap();
    let mut b = CwHoNetworkManifold::new(identity(NodeType::Executor, 2), 0).unwrap();
    a.start_network(&config()).unwrap();
    b.start_network(&config()).unwrap();
    b.subscribe().unwrap();
    let msg = announce_from(&mut a);
    let a_key = NodePrivKey::from_seed(1).id().0.to_vec();
    b.handle_inbound(a_key.clone(), 0, Some(msg), 1_000);
    assert_eq!(b.get_topology().nodes().len(), 2);
    assert!(b.maintenance_tick(121_000).is_empty());
    assert_eq!(b.peer_count(), 1);
    let ping = NetworkMessage { message_type: Some(MessageType::TetrahedralPing(TetrahedralPing::default())) };
    b.handle_inbound(a_key.clone(), 3, Some(ping), 100_000);
    assert!(b.maintenance_tick(220_000).is_empty());
    let evicted = b.maintenance_tick(220_001);
    assert_eq!(evicted, vec![a_key.clone()]);
    assert_eq!(b.peer_count(), 0);
    assert_eq!(b.get_topology().nodes().len(), 1);
    let events = b.take_events();
    let last = events.last().unwrap();
    match &last.event_type {
        Some(EventType::PeerDisconnected(d)) => {
            assert_eq!(d.reason, "Timeout");
            assert_eq!(d.peer_id, a_key);
        },
        _ => panic!("expected a disconnect event"),
    }
}

#[test]
fn decode_failure_becomes_error_event() {
    let mut m = CwHoNetworkManifold::new(identity(NodeType::Coordinator, 1), 0).unwrap();
    m.start_network(&config()).unwrap();
    assert_eq!(m.handle_inbound(vec![1, 2], 2, None, 5), None);
    let events: Vec<NetworkEvent> = m.take_events();
    assert_eq!(events.len(), 1);
    match &events[0].event_type {
        Some(EventType::Error(e)) => assert_eq!(e.error, "receive failure on channel 2"),
        _ => panic!("expected an error event"),
    }
    assert!(m.take_events().is_empty());
}

#[test]
fn request_completes_on_matching_response_and_times_out_otherwise() {
    let mut m = CwHoNetworkManifold::new(identity(NodeType::Coordinator, 1), 0).unwrap();
    m.start_network(&config()).unwrap();
    let req = NetworkMessage { message_type: Some(MessageType::Request(Request { request_id: "r1".to_string(), payload: None })) };
    let (out, id) = m.request(vec![9], req, 1_000, 500).unwrap();
    assert_eq!(id, "r1");
    assert!(out.ack_required);
    assert_eq!(out.recipients, Recipients::One(vec![9]));
    let ping = NetworkMessage { message_type: Some(MessageType::TetrahedralPing(TetrahedralPing::default())) };
    let (_, id2) = m.request(vec![9], ping, 1_000, 500).unwrap();
    assert_eq!(id2.len(), 36);
    let resp = NetworkMessage { message_type: Some(MessageType::Response(Response { request_id: "r1".to_string(), success: true, payload: None })) };
    assert_eq!(m.handle_inbound(vec![9], 1, Some(resp.clone()), 1_200), Some("r1".to_string()));
    assert_eq!(m.handle_inbound(vec![9], 1, Some(resp), 1_300), None);
    assert!(m.expire_requests(1_499).is_empty());
    assert_eq!(m.expire_requests(1_500), vec![id2]);
}

#[test]
fn shutdown_is_terminal() {
    let mut m = CwHoNetworkManifold::new(identity(NodeType::Coordinator, 1), 0).unwrap();
    m.start_network(&config()).unwrap();
    m.shutdown();
    assert!(m.is_shutdown());
    assert_eq!(m.state(), ManagerState::Stopped);
    assert_eq!(m.start_network(&config()).err(), Some(CommonwareNetworkError::AlreadyStarted));
    assert_eq!(m.announce_node().err(), Some(CommonwareNetworkError::NotInitialized));
}

#[test]
fn snapshot_and_health_summary() {
    let mut t = full_tetrahedron();
    t.add_connection("c".to_string(), "e".to_string());
    let snap = t.snapshot();
    assert_eq!(snap.nodes.len(), 4);
    assert_eq!(snap.connections.len(), 1);
    assert_eq!(snap.connections[0].from_node_id, "c");
    assert_eq!(snap.connections[0].to_node_id, "e");

    let mut m = CwHoNetworkManifold::new(identity(NodeType::Coordinator, 1), 0).unwrap();
    let h = m.health_summary();
    assert_eq!(h.peer_count, 0);
    assert_eq!(h.online_nodes, 1);
    assert_eq!(h.offline_nodes, 0);
    m.start_network(&config()).unwrap();
    let msg = NetworkMessage { message_type: Some(MessageType::NodeAnnounce(NodeAnnounce {
        node_id: "peer-x".to_string(), role: 2, capabilities: vec![], load_factor: "0".to_string() })) };
    m.handle_inbound(vec![7; 32], 0, Some(msg), 3_000);
    let h = m.health_summary();
    assert_eq!(h.peer_count, 1);
    assert_eq!(h.online_nodes, 2);
}
