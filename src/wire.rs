//! Messages, events and configuration records exchanged by nodes, and the
//! fixed table that assigns each message kind its channel.

use vstd::prelude::*;
use crate::text::str_eq;
use vstd::string::*;
use crate::error::{CommonwareNetworkError, CommonwareNetworkResult};
use crate::types::{Any, FractalOperation, NetworkTopology, NodeInfo, NodeType, TaskCoordination, node_type_name};

verus! {

/// Limits on frames, peers and connection time.
#[derive(Clone, Copy, Debug, PartialEq, Eq, Default)]
pub struct NetworkLimits {
    pub max_message_size: u32,
    pub max_peers: u32,
    pub connection_timeout: u64,
}

/// Buffer size of each of the four channels.
#[derive(Clone, Copy, Debug, PartialEq, Eq, Default, Structural)]
pub struct ChannelConfig {
    pub discovery_buffer: u32,
    pub task_buffer: u32,
    pub state_buffer: u32,
    pub health_buffer: u32,
}

impl ChannelConfig {
    /// The default buffer sizes.
    pub fn new() -> (r: ChannelConfig)
        ensures
            r.discovery_buffer == 100,
            r.task_buffer == 1000,
            r.state_buffer == 500,
            r.health_buffer == 50,
    {
        ChannelConfig { discovery_buffer: 100, task_buffer: 1000, state_buffer: 500, health_buffer: 50 }
    }

    /// The buffer size configured for channel `channel`.
    pub fn buffer_for(&self, channel: u8) -> (r: Option<u32>)
        ensures
            channel == DISCOVERY_CHANNEL ==> r == Some(self.discovery_buffer),
            channel == TASK_CHANNEL ==> r == Some(self.task_buffer),
            channel == STATE_CHANNEL ==> r == Some(self.state_buffer),
            channel == HEALTH_CHANNEL ==> r == Some(self.health_buffer),
            channel > HEALTH_CHANNEL ==> r is None,
    {
        if channel == DISCOVERY_CHANNEL {
            Some(self.discovery_buffer)
        } else if channel == TASK_CHANNEL {
            Some(self.task_buffer)
        } else if channel == STATE_CHANNEL {
            Some(self.state_buffer)
        } else if channel == HEALTH_CHANNEL {
            Some(self.health_buffer)
        } else {
            None
        }
    }
}

/// Placeholder for a future configuration shape.
#[derive(Clone, Copy, Debug, PartialEq, Eq, Default)]
pub struct NewNetworkConfig {}

/// How a node joins and talks to the network.
#[derive(Clone, Debug, PartialEq, Eq, Default)]
pub struct NetworkConfig {
    pub node_type: String,
    pub bootstrap_peers: Vec<String>,
    pub known_peers: Vec<String>,
    pub listen_port: u32,
    pub listen_address: String,
    pub max_peers: u32,
    pub connection_timeout_ms: u32,
    pub enable_discovery: bool,
    pub limits: Option<NetworkLimits>,
    pub channels: Option<ChannelConfig>,
}

/// The optional limits of a configuration are acceptable: a connection
/// timeout of at least 100, frames of at most 100000000 bytes, at most 10
/// peers.
pub open spec fn limits_acceptable(limits: Option<NetworkLimits>) -> bool {
    match limits {
        Some(l) => l.connection_timeout >= 100 && l.max_message_size <= 100000000 && l.max_peers <= 10,
        None => true,
    }
}

impl NetworkConfig {
    /// The default configuration of an executor node on the local host.
    pub fn new() -> (r: NetworkConfig)
        ensures
            r.node_type@ == node_type_name(NodeType::Executor),
            r.bootstrap_peers@.len() == 0,
            r.known_peers@.len() == 0,
            r.listen_port == 69699,
            r.listen_address@ == "127.0.0.1"@,
            r.max_peers == 5,
            r.connection_timeout_ms == 1313131313,
            r.enable_discovery,
            r.limits is None,
            r.channels == Some(ChannelConfig { discovery_buffer: 100, task_buffer: 1000, state_buffer: 500, health_buffer: 50 }),
    {
        NetworkConfig {
            node_type: String::from_str(NodeType::Executor.as_str_name()),
            bootstrap_peers: Vec::new(),
            known_peers: Vec::new(),
            listen_port: 69699,
            listen_address: String::from_str("127.0.0.1"),
            max_peers: 5,
            connection_timeout_ms: 1313131313,
            enable_discovery: true,
            limits: None,
            channels: Some(ChannelConfig::new()),
        }
    }

    /// Reject a zero listen port and out-of-range limits.
    pub fn validate(&self) -> (r: CommonwareNetworkResult<()>)
        ensures
            r is Ok <==> (self.listen_port != 0 && limits_acceptable(self.limits)),
            r matches Err(e) ==> e is ConfigError,
    {
        if self.listen_port == 0 {
            return Err(CommonwareNetworkError::ConfigError(String::from_str("listen port must be non-zero")));
        }
        match self.limits {
            Some(l) => {
                if l.connection_timeout < 100 || l.max_message_size > 100000000 || l.max_peers > 10 {
                    return Err(CommonwareNetworkError::ConfigError(String::from_str("limits out of range")));
                }
                Ok(())
            },
            None => Ok(()),
        }
    }
}

/// Channel of peer discovery and announcements.
pub const DISCOVERY_CHANNEL: u8 = 0;
/// Channel of task traffic and request/response pairs.
pub const TASK_CHANNEL: u8 = 1;
/// Channel of state synchronisation.
pub const STATE_CHANNEL: u8 = 2;
/// Channel of health pings.
pub const HEALTH_CHANNEL: u8 = 3;
/// Number of channels.
pub const CHANNEL_COUNT: u8 = 4;

/// A node's announcement of itself.
#[derive(Clone, Debug, PartialEq, Eq, Default)]
pub struct NodeAnnounce {
    pub node_id: String,
    pub role: i32,
    pub capabilities: Vec<String>,
    pub load_factor: String,
}

/// Progress of a sand loop.
#[derive(Clone, Debug, PartialEq, Eq, Default)]
pub struct SandloopState {
    pub loop_id: String,
    pub iteration: u64,
    pub phase: String,
    pub metrics: Option<Any>,
}

/// A fractal state delta.
#[derive(Clone, Debug, PartialEq, Eq, Default)]
pub struct FractalSync {
    pub state_version: u64,
    pub fractal_depth: u32,
    pub state_root: String,
    pub delta_operations: Vec<FractalOperation>,
}

/// A health ping carrying the sender's view of the topology.
#[derive(Clone, Debug, PartialEq, Eq, Default)]
pub struct TetrahedralPing {
    pub from_node: String,
    pub timestamp: u64,
    pub network_topology: Option<NetworkTopology>,
}

/// A request that expects a correlated response.
#[derive(Clone, Debug, PartialEq, Eq, Default)]
pub struct Request {
    pub request_id: String,
    pub payload: Option<Any>,
}

/// The answer to a request, carrying the request's id.
#[derive(Clone, Debug, PartialEq, Eq, Default)]
pub struct Response {
    pub request_id: String,
    pub success: bool,
    pub payload: Option<Any>,
}

/// The seven message kinds.
#[derive(Clone, Debug, PartialEq, Eq)]
pub enum MessageType {
    NodeAnnounce(NodeAnnounce),
    TaskCoordination(TaskCoordination),
    SandloopState(SandloopState),
    FractalSync(FractalSync),
    TetrahedralPing(TetrahedralPing),
    Request(Request),
    Response(Response),
}

/// A message envelope; exactly one kind when well formed.
#[derive(Clone, Debug, PartialEq, Eq, Default)]
pub struct NetworkMessage {
    pub message_type: Option<MessageType>,
}

/// The channel that carries each message kind.
pub open spec fn channel_of(m: MessageType) -> u8 {
    match m {
        MessageType::NodeAnnounce(_) => DISCOVERY_CHANNEL,
        MessageType::TaskCoordination(_) => TASK_CHANNEL,
        MessageType::SandloopState(_) => STATE_CHANNEL,
        MessageType::FractalSync(_) => STATE_CHANNEL,
        MessageType::TetrahedralPing(_) => HEALTH_CHANNEL,
        MessageType::Request(_) => TASK_CHANNEL,
        MessageType::Response(_) => TASK_CHANNEL,
    }
}

impl MessageType {
    /// The channel that carries this kind.
    pub fn channel(&self) -> (r: u8)
        ensures
            r == channel_of(*self),
            r < CHANNEL_COUNT,
    {
        match self {
            MessageType::NodeAnnounce(_) => DISCOVERY_CHANNEL,
            MessageType::TaskCoordination(_) => TASK_CHANNEL,
            MessageType::SandloopState(_) => STATE_CHANNEL,
            MessageType::FractalSync(_) => STATE_CHANNEL,
            MessageType::TetrahedralPing(_) => HEALTH_CHANNEL,
            MessageType::Request(_) => TASK_CHANNEL,
            MessageType::Response(_) => TASK_CHANNEL,
        }
    }
}

impl NetworkMessage {
    /// The channel that carries this message: `None` for an envelope with
    /// no kind set.
    pub fn channel(&self) -> (r: Option<u8>)
        ensures
            r == match self.message_type {
                Some(m) => Some(channel_of(m)),
                None => None::<u8>,
            },
    {
        match &self.message_type {
            Some(m) => Some(m.channel()),
            None => None,
        }
    }
}

/// A peer has connected.
#[derive(Clone, Debug, PartialEq, Eq, Default)]
pub struct PeerConnected {
    pub peer_id: Vec<u8>,
    pub node_info: Option<NodeInfo>,
}

/// A peer has gone, with the reason.
#[derive(Clone, Debug, PartialEq, Eq, Default)]
pub struct PeerDisconnected {
    pub peer_id: Vec<u8>,
    pub reason: String,
}

/// A message arrived from a peer on a channel.
#[derive(Clone, Debug, PartialEq, Eq, Default)]
pub struct MessageReceived {
    pub from: Vec<u8>,
    pub message: Option<NetworkMessage>,
    pub channel: u32,
}

/// The topology has changed.
#[derive(Clone, Debug, PartialEq, Eq, Default)]
pub struct TopologyChanged {
    pub topology: Option<NetworkTopology>,
}

/// A receive-path failure, reported and survived.
#[derive(Clone, Debug, PartialEq, Eq, Default)]
pub struct NetworkError {
    pub error: String,
}

/// The five event kinds.
#[derive(Clone, Debug, PartialEq, Eq)]
pub enum EventType {
    PeerConnected(PeerConnected),
    PeerDisconnected(PeerDisconnected),
    MessageReceived(MessageReceived),
    TopologyChanged(TopologyChanged),
    Error(NetworkError),
}

/// An event envelope.
#[derive(Clone, Debug, PartialEq, Eq, Default)]
pub struct NetworkEvent {
    pub event_type: Option<EventType>,
}

/// Operating system of a host.
#[derive(Clone, Copy, Debug, PartialEq, Eq, Hash, Structural)]
pub enum HostOs {
    Unspecified,
    Linux,
    Macos,
    Windows,
    ContainerLinux,
}

/// The stable wire name of each operating system.
pub open spec fn host_os_name(o: HostOs) -> Seq<char> {
    match o {
        HostOs::Unspecified => "HOST_OS_UNSPECIFIED"@,
        HostOs::Linux => "HOST_OS_LINUX"@,
        HostOs::Macos => "HOST_OS_MACOS"@,
        HostOs::Windows => "HOST_OS_WINDOWS"@,
        HostOs::ContainerLinux => "HOST_OS_CONTAINER_LINUX"@,
    }
}

/// The operating system whose wire name is `s`, if any.
pub open spec fn host_os_of_name(s: Seq<char>) -> Option<HostOs> {
    if s == host_os_name(HostOs::Unspecified) {
        Some(HostOs::Unspecified)
    } else if s == host_os_name(HostOs::Linux) {
        Some(HostOs::Linux)
    } else if s == host_os_name(HostOs::Macos) {
        Some(HostOs::Macos)
    } else if s == host_os_name(HostOs::Windows) {
        Some(HostOs::Windows)
    } else if s == host_os_name(HostOs::ContainerLinux) {
        Some(HostOs::ContainerLinux)
    } else {
        None
    }
}

impl HostOs {
    /// The wire name of this operating system.
    pub fn as_str_name(&self) -> (r: &'static str)
        ensures
            r@ == host_os_name(*self),
    {
        match self {
            HostOs::Unspecified => "HOST_OS_UNSPECIFIED",
            HostOs::Linux => "HOST_OS_LINUX",
            HostOs::Macos => "HOST_OS_MACOS",
            HostOs::Windows => "HOST_OS_WINDOWS",
            HostOs::ContainerLinux => "HOST_OS_CONTAINER_LINUX",
        }
    }

    /// The operating system named `value`, or `None` for an unknown name.
    pub fn from_str_name(value: &str) -> (r: Option<HostOs>)
        ensures
            r == host_os_of_name(value@),
    {
        if str_eq(value, "HOST_OS_UNSPECIFIED") {
            Some(HostOs::Unspecified)
        } else if str_eq(value, "HOST_OS_LINUX") {
            Some(HostOs::Linux)
        } else if str_eq(value, "HOST_OS_MACOS") {
            Some(HostOs::Macos)
        } else if str_eq(value, "HOST_OS_WINDOWS") {
            Some(HostOs::Windows)
        } else if str_eq(value, "HOST_OS_CONTAINER_LINUX") {
            Some(HostOs::ContainerLinux)
        } else {
            None
        }
    }
}

/// A full install over SSH.
#[derive(Clone, Copy, Debug, PartialEq, Eq, Default)]
pub struct SshFullInstall {}

/// A deployment on a cloud provider.
#[derive(Clone, Debug, PartialEq, Eq, Default)]
pub struct CloudDeployment {
    pub provider: String,
}

/// A local development setup.
#[derive(Clone, Copy, Debug, PartialEq, Eq, Default)]
pub struct LocalDevelopment {}

/// The ways a node can be brought up.
#[derive(Clone, Debug, PartialEq, Eq)]
pub enum Method {
    SshFullInstall(SshFullInstall),
    CloudDeployment(CloudDeployment),
    LocalDevelopment(LocalDevelopment),
}

/// A bootstrap method, if one is set.
#[derive(Clone, Debug, PartialEq, Eq, Default)]
pub struct BootstrapMethod {
    pub method: Option<Method>,
}

/// How a node is deployed.
#[derive(Clone, Debug, PartialEq, Eq, Default)]
pub struct DeploymentConfig {
    pub bootstrap_method: Option<BootstrapMethod>,
    pub ssh_key_path: Option<String>,
    pub env_file_path: Option<String>,
    pub install_dependencies: bool,
    pub auto_start_services: bool,
}

} // verus!
