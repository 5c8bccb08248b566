//! Helpers shared with the collaborators: standard network messages, the
//! full-mesh topology, configuration checks, chat messages and clock readings.

use vstd::prelude::*;
use vstd::string::*;
use crate::error::{CommonwareNetworkError, CommonwareNetworkResult, HoError, HoResult};
use crate::identity::NodeIdentity;
use crate::netutil::NetworkUtils;
use crate::orchestration::{PromptContext, PromptMessage};
use crate::text::{decimal, decimal_string};
use crate::types::{Connection, NetworkTopology, NodeInfo, NodeType, node_type_code, node_type_of_name};
use crate::wire::{MessageType, NetworkConfig, NetworkMessage, NodeAnnounce, TetrahedralPing, limits_acceptable};

verus! {

/// Relies on `std::time::SystemTime::now`: milliseconds since the Unix
/// epoch, zero for a clock set before it. Nothing is known of the value.
#[verifier::external_body]
fn unix_time_millis() -> (r: u64) {
    std::time::SystemTime::now()
        .duration_since(std::time::UNIX_EPOCH)
        .unwrap_or_default()
        .as_millis() as u64
}

/// Relies on `uuid::Uuid::new_v4` and `Uuid::as_bytes`: the 16 bytes of a
/// random identifier.
#[verifier::external_body]
fn random_uuid_bytes() -> (r: Vec<u8>)
    ensures
        r@.len() == 16,
{
    uuid::Uuid::new_v4().as_bytes().to_vec()
}

/// Relies on `uuid::Uuid::new_v4` and its `Display`: the hyphenated
/// lowercase form of a random identifier, 36 characters.
#[verifier::external_body]
fn random_uuid_string() -> (r: String)
    ensures
        r@.len() == 36,
{
    uuid::Uuid::new_v4().to_string()
}

/// Random identifiers and clock readings.
pub struct IdGenerator;

impl IdGenerator {
    /// A random identifier as 16 bytes.
    pub fn new_uuid_bytes() -> (r: Vec<u8>)
        ensures
            r@.len() == 16,
    {
        random_uuid_bytes()
    }

    /// A random identifier in its 36-character hyphenated form.
    pub fn new_uuid_string() -> (r: String)
        ensures
            r@.len() == 36,
    {
        random_uuid_string()
    }

    /// Seconds since the Unix epoch.
    pub fn timestamp_seconds() -> (r: u64) {
        unix_time_millis() / 1000
    }

    /// Milliseconds since the Unix epoch.
    pub fn timestamp_millis() -> (r: u64) {
        unix_time_millis()
    }
}

/// The role code announced for a role name: its code, or the code of
/// `Unspecified` for an unknown name.
pub open spec fn announced_role(name: Seq<char>) -> i32 {
    match node_type_of_name(name) {
        Some(t) => node_type_code(t),
        None => 0,
    }
}

/// The two links between the `i`-th and `j`-th records, when both are online.
pub open spec fn link_pair(s: Seq<NodeInfo>, i: int, j: int) -> Seq<(Seq<char>, Seq<char>)> {
    if s[i].online && s[j].online {
        seq![(s[i].node_id@, s[j].node_id@), (s[j].node_id@, s[i].node_id@)]
    } else {
        Seq::empty()
    }
}

/// The links of the `i`-th record to the records `i + 1 .. j`.
pub open spec fn mesh_row(s: Seq<NodeInfo>, i: int, j: int) -> Seq<(Seq<char>, Seq<char>)>
    decreases j - i,
{
    if j <= i + 1 {
        Seq::empty()
    } else {
        mesh_row(s, i, j - 1) + link_pair(s, i, j - 1)
    }
}

/// The links of the records `0 .. i` to every later record.
pub open spec fn mesh_rows(s: Seq<NodeInfo>, i: int) -> Seq<(Seq<char>, Seq<char>)>
    decreases i,
{
    if i <= 0 {
        Seq::empty()
    } else {
        mesh_rows(s, i - 1) + mesh_row(s, i - 1, s.len() as int)
    }
}

/// The view of a connection list.
pub open spec fn connection_views(c: Seq<Connection>) -> Seq<(Seq<char>, Seq<char>)> {
    c.map_values(|x: Connection| (x.from_node_id@, x.to_node_id@))
}

/// Shared implementation of network helpers.
pub struct NetworkShareImpl;

impl NetworkShareImpl {
    /// The standard announcement of `identity`: its `host:port`, its role,
    /// and the standard capabilities.
    pub fn create_node_announcement(identity: &NodeIdentity) -> (r: NetworkMessage)
        ensures
            r.message_type matches Some(MessageType::NodeAnnounce(a)) && {
                &&& a.node_id@ == identity.host@ + ":"@ + decimal(identity.p2p_port as nat)
                &&& a.role == announced_role(identity.node_type@)
                &&& a.capabilities@.len() == 2
                &&& a.capabilities@[0]@ == "llm_processing"@
                &&& a.capabilities@[1]@ == "task_coordination"@
                &&& a.load_factor@ == "0.5"@
            },
    {
        let mut node_id = String::from_str(identity.host.as_str());
        node_id.append(":");
        let port = decimal_string(identity.p2p_port as u64);
        node_id.append(port.as_str());
        let role = match NodeType::from_str_name(identity.node_type.as_str()) {
            Some(t) => t.code(),
            None => NodeType::Unspecified.code(),
        };
        let mut capabilities: Vec<String> = Vec::new();
        capabilities.push(String::from_str("llm_processing"));
        capabilities.push(String::from_str("task_coordination"));
        let announce = NodeAnnounce { node_id, role, capabilities, load_factor: String::from_str("0.5") };
        NetworkMessage { message_type: Some(MessageType::NodeAnnounce(announce)) }
    }

    /// A health ping from `from_node` carrying `topology`, stamped with the
    /// current time.
    pub fn create_ping(from_node: &str, topology: NetworkTopology) -> (r: NetworkMessage)
        ensures
            r.message_type matches Some(MessageType::TetrahedralPing(p))
                && p.from_node@ == from_node@ && p.network_topology == Some(topology),
    {
        let ping = TetrahedralPing {
            from_node: String::from_str(from_node),
            timestamp: IdGenerator::timestamp_seconds(),
            network_topology: Some(topology),
        };
        NetworkMessage { message_type: Some(MessageType::TetrahedralPing(ping)) }
    }

    /// Check the listen port, the listen address and the peer limit.
    pub fn validate_network_config(config: &NetworkConfig) -> (r: HoResult<()>)
        ensures
            r is Ok <==> (1 <= config.listen_port <= 65535 && config.listen_address@.len() > 0 && config.max_peers > 0),
    {
        match NetworkUtils::validate_port(config.listen_port) {
            Ok(_) => {},
            Err(e) => {
                return Err(e);
            },
        }
        if config.listen_address.as_str().unicode_len() == 0 {
            return Err(HoError::Network(String::from_str("listen address cannot be empty")));
        }
        if config.max_peers == 0 {
            return Err(HoError::Network(String::from_str("max peers must be greater than 0")));
        }
        Ok(())
    }

    /// A topology of `nodes` in which every two online nodes are linked in
    /// both directions.
    pub fn create_topology(nodes: Vec<NodeInfo>) -> (r: NetworkTopology)
        ensures
            r.nodes@ == nodes@,
            connection_views(r.connections@) == mesh_rows(nodes@, nodes@.len() as int),
    {
        let ghost s = nodes@;
        let n = nodes.len();
        let mut connections: Vec<Connection> = Vec::new();
        let mut i: usize = 0;
        while i < n
            invariant
                s == nodes@,
                n == s.len(),
                i <= n,
                connection_views(connections@) == mesh_rows(s, i as int),
            decreases n - i,
        {
            let mut j: usize = i + 1;
            assert(mesh_row(s, i as int, j as int) =~= Seq::<(Seq<char>, Seq<char>)>::empty());
            assert(mesh_rows(s, i as int) + mesh_row(s, i as int, j as int) =~= mesh_rows(s, i as int));
            while j < n
                invariant
                    s == nodes@,
                    n == s.len(),
                    i < n,
                    i + 1 <= j <= n,
                    connection_views(connections@) == mesh_rows(s, i as int) + mesh_row(s, i as int, j as int),
                decreases n - j,
            {
                let ghost before = connections@;
                if nodes[i].online && nodes[j].online {
                    connections.push(Connection { from_node_id: nodes[i].node_id.clone(), to_node_id: nodes[j].node_id.clone() });
                    connections.push(Connection { from_node_id: nodes[j].node_id.clone(), to_node_id: nodes[i].node_id.clone() });
                    assert(connection_views(connections@) =~= connection_views(before) + link_pair(s, i as int, j as int));
                } else {
                    assert(link_pair(s, i as int, j as int) =~= Seq::<(Seq<char>, Seq<char>)>::empty());
                }
                assert(mesh_row(s, i as int, j + 1) == mesh_row(s, i as int, j as int) + link_pair(s, i as int, j as int));
                assert(mesh_rows(s, i as int) + mesh_row(s, i as int, j + 1)
                    =~= mesh_rows(s, i as int) + mesh_row(s, i as int, j as int) + link_pair(s, i as int, j as int));
                j = j + 1;
            }
            assert(mesh_rows(s, i + 1) == mesh_rows(s, i as int) + mesh_row(s, i as int, n as int));
            i = i + 1;
        }
        NetworkTopology { nodes, connections }
    }
}

/// Shared implementation of chat helpers.
pub struct LlmShareImpl;

impl LlmShareImpl {
    /// A message with role `user`.
    pub fn create_user_message(content: String) -> (r: PromptMessage)
        ensures
            r.role@ == "user"@,
            r.content == content,
    {
        PromptMessage { role: String::from_str("user"), content }
    }

    /// A message with role `assistant`.
    pub fn create_assistant_message(content: String) -> (r: PromptMessage)
        ensures
            r.role@ == "assistant"@,
            r.content == content,
    {
        PromptMessage { role: String::from_str("assistant"), content }
    }

    /// A message with role `system`.
    pub fn create_system_message(content: String) -> (r: PromptMessage)
        ensures
            r.role@ == "system"@,
            r.content == content,
    {
        PromptMessage { role: String::from_str("system"), content }
    }
}

impl LlmShareImpl {
    /// A prompt context for `session_id` (a new random one where none is
    /// given) and `user_id`, on a new random thread.
    pub fn create_prompt_context(session_id: Option<String>, user_id: Option<String>) -> (r: PromptContext)
        ensures
            session_id is Some ==> r.session_id == session_id,
            r.session_id matches Some(s) && (session_id is None ==> s@.len() == 36),
            r.user_id == user_id,
            r.thread_id matches Some(t) && t@.len() == 36,
    {
        let session = match session_id {
            Some(s) => Some(s),
            None => Some(IdGenerator::new_uuid_string()),
        };
        PromptContext { session_id: session, user_id, thread_id: Some(IdGenerator::new_uuid_string()) }
    }
}

/// The node-side view of a network configuration, with its checks.
#[derive(Clone, Debug, PartialEq, Eq, Default)]
pub struct CwHoNetworkConfig(pub NetworkConfig);

impl CwHoNetworkConfig {
    /// Check the optional limits: a connection timeout of at least 100, a
    /// message size of at most 100000000, and at most 10 peers.
    pub fn validate(&self) -> (r: CommonwareNetworkResult<()>)
        ensures
            r is Ok <==> limits_acceptable(self.0.limits),
            r matches Err(e) ==> e is ConfigError,
    {
        match self.0.limits {
            Some(l) => {
                if l.connection_timeout < 100 || l.max_message_size > 100000000 || l.max_peers > 10 {
                    return Err(CommonwareNetworkError::ConfigError(String::from_str("limits out of range")));
                }
                Ok(())
            },
            None => Ok(()),
        }
    }

    /// The listen port.
    pub fn listen_port(&self) -> (r: u32)
        ensures
            r == self.0.listen_port,
    {
        self.0.listen_port
    }

    /// The peer limit.
    pub fn max_peers(&self) -> (r: u32)
        ensures
            r == self.0.max_peers,
    {
        self.0.max_peers
    }

    /// The connection timeout, in milliseconds.
    pub fn connection_timeout_ms(&self) -> (r: u32)
        ensures
            r == self.0.connection_timeout_ms,
    {
        self.0.connection_timeout_ms
    }

    /// Whether discovery is on.
    pub fn is_discovery_enabled(&self) -> (r: bool)
        ensures
            r == self.0.enable_discovery,
    {
        self.0.enable_discovery
    }
}

/// State of an SSH link to a node.
#[derive(Clone, Debug, PartialEq, Eq)]
pub struct SSHConnectionManager {
    pub target_node: String,
    pub is_connected: bool,
}

impl SSHConnectionManager {
    /// A manager for `target_node`, not yet connected.
    pub fn new(target_node: String) -> (r: SSHConnectionManager)
        ensures
            r.target_node == target_node,
            !r.is_connected,
    {
        SSHConnectionManager { target_node, is_connected: false }
    }

    /// Whether the link is up.
    pub fn is_connected(&self) -> (r: bool)
        ensures
            r == self.is_connected,
    {
        self.is_connected
    }
}

} // verus!
