use cw_ho::error::CommonwareNetworkError;
use cw_ho::identity::{NodeIdentity, NodePrivKey};
use cw_ho::manager::CwHoNetworkManifold;
use cw_ho::orchestration::{
    CosmicTaskStatus, LlmEntity, LlmModel, LlmRouterConfig, ModelSelectionStrategy, OrchestrateTask,
};
use cw_ho::shared::{CwHoNetworkConfig, IdGenerator, LlmShareImpl, NetworkShareImpl, SSHConnectionManager};
use cw_ho::types::{Connection, NetworkTopology, NodeInfo, NodeType};
use cw_ho::wire::{ChannelConfig, HostOs, MessageType, NetworkConfig, NetworkLimits, NetworkMessage};

fn info(id: &str, online: bool) -> NodeInfo {
    NodeInfo { node_id: id.to_string(), node_type: "NODE_TYPE_EXECUTOR".to_string(), online, last_seen: 1 }
}

fn running(role: &str) -> CwHoNetworkManifold {
    let mut id = NodeIdentity::default();
    id.host = "127.0.0.1".to_string();
    id.p2p_port = 9000;
    id.node_type = role.to_string();
    id.set_keypair(NodePrivKey::from_seed(5));
    let mut m = CwHoNetworkManifold::new(id, 0).unwrap();
    let cfg = NetworkConfig { channels: Some(ChannelConfig::new()), ..Default::default() };
    m.start_network(&cfg).unwrap();
    m
}

#[test]
fn message_without_kind_is_channel_error() {
    let mut m = running("NODE_TYPE_COORDINATOR");
    assert!(matches!(m.broadcast(NetworkMessage::default()), Err(CommonwareNetworkError::ChannelError(_))));
    assert!(matches!(m.request(vec![1], NetworkMessage::default(), 0, 10), Err(CommonwareNetworkError::ChannelError(_))));
}

#[test]
fn announce_with_unknown_role_is_invalid_node_type() {
    let mut m = running("CAPTAIN");
    assert_eq!(m.announce_node().err(), Some(CommonwareNetworkError::InvalidNodeType("CAPTAIN".to_string())));
}

#[test]
fn announce_carries_identity() {
    let mut m = running("NODE_TYPE_REFEREE");
    let out = m.announce_node().unwrap();
    match out.message.message_type {
        Some(MessageType::NodeAnnounce(a)) => {
            assert_eq!(a.role, 3);
            assert_eq!(a.capabilities, vec!["minimal".to_string()]);
            assert_eq!(a.load_factor, "0");
            assert_eq!(a.node_id.len(), 64);
        },
        _ => panic!("expected an announcement"),
    }
}

#[test]
fn full_mesh_topology() {
    let t = NetworkShareImpl::create_topology(vec![info("a", true), info("b", false), info("c", true), info("d", true)]);
    let pairs: Vec<(String, String)> = t.connections.iter().map(|c| (c.from_node_id.clone(), c.to_node_id.clone())).collect();
    let expected: Vec<(String, String)> = [("a", "c"), ("c", "a"), ("a", "d"), ("d", "a"), ("c", "d"), ("d", "c")]
        .iter()
        .map(|(x, y)| (x.to_string(), y.to_string()))
        .collect();
    assert_eq!(pairs, expected);
    assert_eq!(t.nodes.len(), 4);
    assert!(NetworkShareImpl::create_topology(Vec::new()).connections.is_empty());
}

#[test]
fn standard_announcement_and_ping() {
    let mut id = NodeIdentity::default();
    id.host = "10.1.1.1".to_string();
    id.p2p_port = 4000;
    id.node_type = "NODE_TYPE_DEVELOPMENT".to_string();
    match NetworkShareImpl::create_node_announcement(&id).message_type {
        Some(MessageType::NodeAnnounce(a)) => {
            assert_eq!(a.node_id, "10.1.1.1:4000");
            assert_eq!(a.role, 4);
            assert_eq!(a.capabilities, vec!["llm_processing".to_string(), "task_coordination".to_string()]);
            assert_eq!(a.load_factor, "0.5");
        },
        _ => panic!("expected an announcement"),
    }
    id.node_type = "unknown".to_string();
    match NetworkShareImpl::create_node_announcement(&id).message_type {
        Some(MessageType::NodeAnnounce(a)) => assert_eq!(a.role, 0),
        _ => panic!("expected an announcement"),
    }
    let ping = NetworkShareImpl::create_ping("x", NetworkTopology::default());
    match ping.message_type {
        Some(MessageType::TetrahedralPing(p)) => {
            assert_eq!(p.from_node, "x");
            assert!(p.timestamp > 1_600_000_000);
        },
        _ => panic!("expected a ping"),
    }
    assert!(IdGenerator::timestamp_millis() / 1000 >= IdGenerator::timestamp_seconds() - 1);
}

#[test]
fn network_config_checks() {
    let mut c = NetworkConfig { listen_port: 8080, listen_address: "0.0.0.0".to_string(), max_peers: 3, ..Default::default() };
    assert!(NetworkShareImpl::validate_network_config(&c).is_ok());
    c.max_peers = 0;
    assert!(NetworkShareImpl::validate_network_config(&c).is_err());
    c.max_peers = 3;
    c.listen_address = String::new();
    assert!(NetworkShareImpl::validate_network_config(&c).is_err());
    c.listen_address = "x".to_string();
    c.listen_port = 70000;
    assert!(NetworkShareImpl::validate_network_config(&c).is_err());

    let d = NetworkConfig::new();
    assert_eq!(d.listen_port, 69699);
    assert_eq!(d.node_type, "NODE_TYPE_EXECUTOR");
    assert!(d.validate().is_ok());
    let mut bad = d.clone();
    bad.limits = Some(NetworkLimits { max_message_size: 10, max_peers: 11, connection_timeout: 500 });
    assert!(matches!(bad.validate(), Err(CommonwareNetworkError::ConfigError(_))));
    assert!(CwHoNetworkConfig(bad.clone()).validate().is_err());
    bad.limits = Some(NetworkLimits { max_message_size: 10, max_peers: 10, connection_timeout: 100 });
    assert!(CwHoNetworkConfig(bad.clone()).validate().is_ok());
    bad.listen_port = 0;
    assert!(bad.validate().is_err());
}

#[test]
fn chat_messages() {
    assert_eq!(LlmShareImpl::create_user_message("hi".to_string()).role, "user");
    assert_eq!(LlmShareImpl::create_assistant_message("hi".to_string()).role, "assistant");
    let s = LlmShareImpl::create_system_message("be brief".to_string());
    assert_eq!(s.role, "system");
    assert_eq!(s.content, "be brief");
}

#[test]
fn router_config_edits() {
    let mut c = LlmRouterConfig::default();
    c.update_default_entity(LlmModel::Anthropic);
    assert_eq!(c.default_entity, 5);
    c.update_default_strategy(ModelSelectionStrategy::GoldenRatio);
    assert_eq!(c.default_strategy, 3);
    let e = LlmEntity { name: "grok".to_string(), models: vec!["grok".to_string()], ..Default::default() };
    c.add_entity(e.clone());
    c.add_entity(e.clone());
    assert_eq!(c.entities.len(), 1);
    let f = LlmEntity { name: "kimi".to_string(), ..Default::default() };
    c.add_entity(f);
    assert_eq!(c.entities.len(), 2);
    assert!(c.remove_entity("nobody".to_string()).is_ok());
    assert_eq!(c.entities.len(), 2);
    assert!(c.remove_entity("grok".to_string()).is_ok());
    assert_eq!(c.entities.len(), 1);
    assert_eq!(c.entities[0].name, "kimi");
}

#[test]
fn enum_wire_names() {
    assert_eq!(OrchestrateTask::Recursive.as_str_name(), "ORCHESTRATE_TASK_RECURSIVE");
    assert_eq!(OrchestrateTask::from_str_name("ORCHESTRATE_TASK_BOOTSTRAP"), Some(OrchestrateTask::Bootstrap));
    assert_eq!(CosmicTaskStatus::from_str_name("COSMIC_TASK_STATUS_FAILED"), Some(CosmicTaskStatus::Failed));
    assert_eq!(CosmicTaskStatus::GeometricValidation.as_str_name(), "COSMIC_TASK_STATUS_GEOMETRIC_VALIDATION");
    assert_eq!(LlmModel::OpenAi.as_str_name(), "OpenAI");
    assert_eq!(LlmModel::from_str_name("OpenAi"), None);
    assert_eq!(ModelSelectionStrategy::from_str_name("MODEL_SELECTION_STRATEGY_ROUND_ROBIN"), Some(ModelSelectionStrategy::RoundRobin));
    assert_eq!(HostOs::from_str_name("HOST_OS_CONTAINER_LINUX"), Some(HostOs::ContainerLinux));
    assert_eq!(HostOs::Macos.as_str_name(), "HOST_OS_MACOS");
    assert_eq!(NodeType::from_str_name("NODE_TYPE_REFEREE"), Some(NodeType::Referee));
}

#[test]
fn ssh_manager_starts_disconnected() {
    let m = SSHConnectionManager::new("node-a".to_string());
    assert!(!m.is_connected());
    assert_eq!(m.target_node, "node-a");
}

#[test]
fn flat_topology_edits() {
    let mut t = NetworkTopology::default();
    t.add_node(info("a", true));
    t.add_node(info("b", false));
    t.add_node(info("a", false));
    assert_eq!(t.online_nodes().len(), 1);
    t.add_connection(Connection { from_node_id: "a".to_string(), to_node_id: "b".to_string() });
    t.add_connection(Connection { from_node_id: "b".to_string(), to_node_id: "a".to_string() });
    t.remove_connection("a", "b");
    assert_eq!(t.connections().len(), 1);
    assert_eq!(t.connections()[0].from_node_id, "b");
    t.remove_node("a");
    assert_eq!(t.nodes().len(), 1);
    assert_eq!(t.nodes()[0].node_id, "b");
}

#[test]
fn test_id_generation() {
    let uuid_bytes = IdGenerator::new_uuid_bytes();
    assert_eq!(uuid_bytes.len(), 16);

    let uuid_string = IdGenerator::new_uuid_string();
    assert_eq!(uuid_string.len(), 36);

    let timestamp = IdGenerator::timestamp_seconds();
    assert!(timestamp > 0);
}

#[test]
fn prompt_context_fills_missing_ids() {
    let c = LlmShareImpl::create_prompt_context(None, Some("u".to_string()));
    assert_eq!(c.session_id.unwrap().len(), 36);
    assert_eq!(c.user_id, Some("u".to_string()));
    assert_eq!(c.thread_id.unwrap().len(), 36);
    let d = LlmShareImpl::create_prompt_context(Some("s".to_string()), None);
    assert_eq!(d.session_id, Some("s".to_string()));
    assert_ne!(IdGenerator::new_uuid_string(), IdGenerator::new_uuid_string());
}
