//! The node network manager as a state machine. Every decision lives here;
//! the caller owns the transport, the clock and the timers, performs the
//! returned sends, and hands inbound messages and ticks back in.

use vstd::prelude::*;
use vstd::string::*;
use crate::error::CommonwareNetworkError;
use crate::identity::{
    NodeIdentity, NodePrivKey, PRIVATE_KEY_LEN, ed25519_private_bytes, ed25519_public_bytes,
    ed25519_public_of, hex_of, keypair_consistent,
};
use crate::netutil::is_socket_host;
use crate::shared::IdGenerator;
use crate::text::{bytes_eq, copy_bytes};
use crate::topology::{
    NetworkTopology, both_hold, edge_avoids, edge_avoids_all, lemma_filter_all_kept, lemma_filter_twice,
};
use crate::types::{NodeInfo, NodeType, node_type_code, node_type_name, node_type_of_code};
use crate::wire::{
    ChannelConfig, EventType, MessageReceived, MessageType, NetworkConfig, NetworkError,
    NetworkEvent, NetworkMessage, NodeAnnounce, PeerConnected, PeerDisconnected, Response, channel_of,
    DISCOVERY_CHANNEL, HEALTH_CHANNEL, STATE_CHANNEL, TASK_CHANNEL,
};

verus! {

/// The protocol-wide signing namespace of the transport.
pub const NETWORK_NAMESPACE: &'static str = "cw-ho-network";
/// Largest frame the transport accepts, in bytes.
pub const MAX_FRAME_SIZE: u32 = 10485760;
/// Messages per second allowed on each channel.
pub const CHANNEL_RATE_PER_SECOND: u32 = 100;
/// Interval of the maintenance tick, in milliseconds.
pub const MAINTENANCE_INTERVAL_MS: u64 = 30000;
/// Silence after which a peer is evicted, in milliseconds.
pub const STALE_AFTER_MS: u64 = 120000;
/// Interval at which the supervisor polls the shutdown flag, in milliseconds.
pub const SHUTDOWN_POLL_MS: u64 = 100;

/// What the manager knows of a peer.
#[derive(Debug)]
pub struct PeerInfo {
    pub public_key: Vec<u8>,
    pub node_info: NodeInfo,
    /// Local clock reading of the last message seen from the peer, in
    /// milliseconds; the peer's own timestamps are not trusted for this.
    pub last_seen: u64,
}

impl Clone for PeerInfo {
    fn clone(&self) -> (r: PeerInfo)
        ensures
            r.public_key@ == self.public_key@,
            r.node_info == self.node_info,
            r.last_seen == self.last_seen,
    {
        PeerInfo { public_key: copy_bytes(&self.public_key), node_info: self.node_info.clone(), last_seen: self.last_seen }
    }
}

/// Lifecycle of a manager: it starts once and stops for good.
#[derive(Clone, Copy, Debug, PartialEq, Eq, Structural)]
pub enum ManagerState {
    Uninitialized,
    Running,
    Stopped,
}

/// One channel the transport must register.
#[derive(Clone, Copy, Debug, PartialEq, Eq, Structural)]
pub struct ChannelRegistration {
    pub channel: u8,
    pub rate_per_second: u32,
    pub buffer: u32,
}

/// What the transport must be started with.
#[derive(Debug)]
pub struct TransportPlan {
    pub signing_key: NodePrivKey,
    pub listen_address: String,
    pub namespace: String,
    pub max_frame_size: u32,
    pub channels: Vec<ChannelRegistration>,
}

/// Who an outbound message goes to.
#[derive(Clone, Debug, PartialEq, Eq)]
pub enum Recipients {
    All,
    Listed(Vec<Vec<u8>>),
    One(Vec<u8>),
}

/// A send for the caller to perform, without waiting for delivery.
#[derive(Clone, Debug)]
pub struct Outbound {
    pub channel: u8,
    pub recipients: Recipients,
    pub message: NetworkMessage,
    pub ack_required: bool,
}

/// A request waiting for its response.
#[derive(Debug)]
pub struct PendingRequest {
    pub request_id: String,
    pub peer: Vec<u8>,
    pub deadline: u64,
}

/// Peer and node counts for health reporting.
#[derive(Clone, Copy, Debug, PartialEq, Eq, Structural)]
pub struct HealthSummary {
    pub peer_count: usize,
    pub online_nodes: usize,
    pub offline_nodes: usize,
}

/// The short label of a role used in error reports.
pub open spec fn role_label(t: NodeType) -> Seq<char> {
    match t {
        NodeType::Unspecified => "Unspecified"@,
        NodeType::Coordinator => "Coordinator"@,
        NodeType::Executor => "Executor"@,
        NodeType::Referee => "Referee"@,
        NodeType::Development => "Development"@,
    }
}

/// The short label of a role.
pub fn role_label_str(t: NodeType) -> (r: &'static str)
    ensures
        r@ == role_label(t),
{
    match t {
        NodeType::Unspecified => "Unspecified",
        NodeType::Coordinator => "Coordinator",
        NodeType::Executor => "Executor",
        NodeType::Referee => "Referee",
        NodeType::Development => "Development",
    }
}

/// No two peers share a public key.
pub open spec fn keys_unique(p: Seq<PeerInfo>) -> bool {
    forall|i: int, j: int| 0 <= i < p.len() && 0 <= j < p.len() && i != j ==> p[i].public_key@ != p[j].public_key@
}

/// A peer's reported role name is `name`.
pub open spec fn peer_has_role(name: Seq<char>) -> spec_fn(PeerInfo) -> bool {
    |x: PeerInfo| x.node_info.node_type@ == name
}

/// The public keys of the peers whose role name is `name`, in order.
pub open spec fn keys_of_role(p: Seq<PeerInfo>, name: Seq<char>) -> Seq<Seq<u8>> {
    p.filter(peer_has_role(name)).map_values(|x: PeerInfo| x.public_key@)
}

/// The views of a list of byte strings.
pub open spec fn key_views(v: Seq<Vec<u8>>) -> Seq<Seq<u8>> {
    v.map_values(|b: Vec<u8>| b@)
}

/// A peer has been silent for longer than the eviction window at `now`.
pub open spec fn is_stale(p: PeerInfo, now: u64) -> bool {
    now > p.last_seen && now - p.last_seen > STALE_AFTER_MS
}

/// The announcement carried by a delivery, if it is one.
pub open spec fn announce_of(d: Option<NetworkMessage>) -> Option<NodeAnnounce> {
    match d {
        Some(NetworkMessage { message_type: Some(MessageType::NodeAnnounce(a)) }) => Some(a),
        _ => None,
    }
}

/// The response carried by a delivery, if it is one.
pub open spec fn response_of(d: Option<NetworkMessage>) -> Option<Response> {
    match d {
        Some(NetworkMessage { message_type: Some(MessageType::Response(r)) }) => Some(r),
        _ => None,
    }
}

/// A peer is stale at `now`.
pub open spec fn peer_is_stale(now: u64) -> spec_fn(PeerInfo) -> bool {
    |p: PeerInfo| is_stale(p, now)
}

/// A peer is not stale at `now`.
pub open spec fn peer_is_fresh(now: u64) -> spec_fn(PeerInfo) -> bool {
    |p: PeerInfo| !is_stale(p, now)
}

/// The node ids of the peers of `s` that are stale at `now`.
pub open spec fn stale_ids(s: Seq<PeerInfo>, now: u64) -> Set<Seq<char>> {
    Set::new(|k: Seq<char>| exists|i: int| 0 <= i < s.len() && is_stale(s[i], now) && s[i].node_info.node_id@ == k)
}

/// `e` reports that the peer with key `key` timed out.
pub open spec fn is_timeout_event(e: NetworkEvent, key: Seq<u8>) -> bool {
    e.event_type matches Some(EventType::PeerDisconnected(d)) && d.peer_id@ == key && d.reason@ == "Timeout"@
}

/// A pending request's deadline has passed at `now`.
pub open spec fn is_expired(now: u64) -> spec_fn(PendingRequest) -> bool {
    |q: PendingRequest| q.deadline <= now
}

/// A pending request's deadline has not passed at `now`.
pub open spec fn is_waiting(now: u64) -> spec_fn(PendingRequest) -> bool {
    |q: PendingRequest| q.deadline > now
}

/// `i` is the first pending request with id `id`.
pub open spec fn first_with_id(q: Seq<PendingRequest>, id: Seq<char>, i: int) -> bool {
    &&& 0 <= i < q.len()
    &&& q[i].request_id@ == id
    &&& forall|j: int| 0 <= j < i ==> q[j].request_id@ != id
}

/// Some peer has key `key`.
pub open spec fn is_known_peer(p: Seq<PeerInfo>, key: Seq<u8>) -> bool {
    exists|i: int| 0 <= i < p.len() && p[i].public_key@ == key
}

/// The role an announcement's code names; `Unspecified` for an unknown code.
pub open spec fn role_of_code(code: i32) -> NodeType {
    match node_type_of_code(code) {
        Some(t) => t,
        None => NodeType::Unspecified,
    }
}

/// The text of the error event of a failed delivery on `channel`.
pub open spec fn receive_error_text(channel: u8) -> Seq<char> {
    "receive failure on channel "@ + crate::text::decimal(channel as nat)
}

/// The four channel registrations a configuration asks for.
pub open spec fn registrations_for(c: ChannelConfig) -> Seq<ChannelRegistration> {
    seq![
        ChannelRegistration { channel: DISCOVERY_CHANNEL, rate_per_second: CHANNEL_RATE_PER_SECOND, buffer: c.discovery_buffer },
        ChannelRegistration { channel: TASK_CHANNEL, rate_per_second: CHANNEL_RATE_PER_SECOND, buffer: c.task_buffer },
        ChannelRegistration { channel: STATE_CHANNEL, rate_per_second: CHANNEL_RATE_PER_SECOND, buffer: c.state_buffer },
        ChannelRegistration { channel: HEALTH_CHANNEL, rate_per_second: CHANNEL_RATE_PER_SECOND, buffer: c.health_buffer },
    ]
}

/// The node network manager.
pub struct CwHoNetworkManifold {
    identity: NodeIdentity,
    self_id: String,
    state: ManagerState,
    peers: Vec<PeerInfo>,
    topology: NetworkTopology,
    events: Vec<NetworkEvent>,
    subscribed: bool,
    shutdown: bool,
    pending: Vec<PendingRequest>,
}

impl CwHoNetworkManifold {
    /// The lifecycle state.
    pub closed spec fn state_of(&self) -> ManagerState {
        self.state
    }

    /// The known peers.
    pub closed spec fn peer_seq(&self) -> Seq<PeerInfo> {
        self.peers@
    }

    /// The topology as tracked by this manager.
    pub closed spec fn topology_of(&self) -> NetworkTopology {
        self.topology
    }

    /// Events emitted and not yet taken by the subscriber, oldest first.
    pub closed spec fn event_seq(&self) -> Seq<NetworkEvent> {
        self.events@
    }

    /// The event stream has been claimed.
    pub closed spec fn is_subscribed(&self) -> bool {
        self.subscribed
    }

    /// Shutdown has been requested.
    pub closed spec fn shutdown_requested(&self) -> bool {
        self.shutdown
    }

    /// This node's own id in the topology.
    pub closed spec fn self_node_id(&self) -> Seq<char> {
        self.self_id@
    }

    /// The identity this manager runs as.
    pub closed spec fn identity_of(&self) -> NodeIdentity {
        self.identity
    }

    /// Requests waiting for their response.
    pub closed spec fn pending_seq(&self) -> Seq<PendingRequest> {
        self.pending@
    }

    /// Internal consistency: unique node ids, unique peer keys, and this
    /// node's id is the hex of the public key of its private key.
    pub closed spec fn wf(&self) -> bool {
        &&& self.topology.wf()
        &&& keys_unique(self.peers@)
        &&& self.identity.private_key is Some
        &&& self.self_id@ == hex_of(ed25519_public_bytes(ed25519_public_of(self.identity.private_key.unwrap()@)))
    }

    /// A manager for `identity`, not yet started, whose topology holds only
    /// this node; fails when the identity has no usable private key.
    pub fn new(identity: NodeIdentity, now_ms: u64) -> (r: Result<CwHoNetworkManifold, CommonwareNetworkError>)
        ensures
            r is Err <==> !(identity.private_key matches Some(k) && k@.len() == PRIVATE_KEY_LEN),
            r matches Err(e) ==> e == CommonwareNetworkError::NodePrivKeyNotFound,
            r matches Ok(m) ==> {
                &&& m.wf()
                &&& m.state_of() == ManagerState::Uninitialized
                &&& m.peer_seq() == Seq::<PeerInfo>::empty()
                &&& m.event_seq() == Seq::<NetworkEvent>::empty()
                &&& m.pending_seq() == Seq::<PendingRequest>::empty()
                &&& !m.is_subscribed()
                &&& !m.shutdown_requested()
                &&& m.identity_of() == identity
                &&& m.topology_of().node_map().dom() == set![m.self_node_id()]
                &&& m.topology_of().node_map()[m.self_node_id()].node_type@ == identity.node_type@
                &&& m.topology_of().node_map()[m.self_node_id()].online
                &&& m.topology_of().node_map()[m.self_node_id()].last_seen == now_ms / 1000
                &&& m.topology_of().edges().len() == 0
                &&& m.self_node_id() == hex_of(ed25519_public_bytes(ed25519_public_of(identity.private_key.unwrap()@)))
                &&& keypair_consistent(identity.public_key, identity.private_key)
                    ==> m.self_node_id() == hex_of(identity.public_key.unwrap()@)
            },
    {
        let key = match identity.signing_key() {
            Ok(k) => k,
            Err(e) => {
                return Err(e);
            },
        };
        let self_id = key.id().to_hex();
        let ghost k = key.key_of();
        let mut topology = NetworkTopology::new();
        let info = NodeInfo {
            node_id: self_id.clone(),
            node_type: identity.node_type.clone(),
            online: true,
            last_seen: now_ms / 1000,
        };
        topology.add_node(info);
        let ghost m = topology.node_map();
        assert(m.dom() =~= set![self_id@]);
        assert(ed25519_private_bytes(k) == identity.private_key.unwrap()@);
        Ok(CwHoNetworkManifold {
            identity,
            self_id,
            state: ManagerState::Uninitialized,
            peers: Vec::new(),
            topology,
            events: Vec::new(),
            subscribed: false,
            shutdown: false,
            pending: Vec::new(),
        })
    }

    /// Plan the transport start-up and move to the running state. Refused
    /// on a manager that was started before, without a usable private key,
    /// with an invalid listen address, or without channel buffer sizes.
    pub fn start_network(&mut self, config: &NetworkConfig) -> (r: Result<TransportPlan, CommonwareNetworkError>)
        requires
            old(self).wf(),
        ensures
            final(self).wf(),
            old(self).state_of() != ManagerState::Uninitialized ==> r == Err::<TransportPlan, CommonwareNetworkError>(CommonwareNetworkError::AlreadyStarted),
            old(self).state_of() == ManagerState::Uninitialized && !(old(self).identity_of().private_key matches Some(k) && k@.len() == PRIVATE_KEY_LEN)
                ==> r == Err::<TransportPlan, CommonwareNetworkError>(CommonwareNetworkError::NodePrivKeyNotFound),
            old(self).state_of() == ManagerState::Uninitialized && (old(self).identity_of().private_key matches Some(k) && k@.len() == PRIVATE_KEY_LEN)
                && !(is_socket_host(old(self).identity_of().host@) && old(self).identity_of().p2p_port <= 65535) ==> r matches Err(CommonwareNetworkError::ConfigError(_)),
            old(self).state_of() == ManagerState::Uninitialized && (old(self).identity_of().private_key matches Some(k) && k@.len() == PRIVATE_KEY_LEN)
                && config.channels is None ==> r matches Err(CommonwareNetworkError::ConfigError(_)),
            r is Ok <==> (old(self).state_of() == ManagerState::Uninitialized
                && (old(self).identity_of().private_key matches Some(k) && k@.len() == PRIVATE_KEY_LEN)
                && is_socket_host(old(self).identity_of().host@) && old(self).identity_of().p2p_port <= 65535
                && config.channels is Some),
            r matches Ok(plan) ==> {
                &&& plan.channels@ == registrations_for(config.channels.unwrap())
                &&& ed25519_private_bytes(plan.signing_key.key_of()) == old(self).identity_of().private_key.unwrap()@
                &&& plan.namespace@ == NETWORK_NAMESPACE@
                &&& plan.max_frame_size == MAX_FRAME_SIZE
                &&& plan.listen_address@ == old(self).identity_of().host@ + ":"@ + crate::text::decimal(old(self).identity_of().p2p_port as nat)
                &&& final(self).state_of() == ManagerState::Running
            },
            r is Err ==> *final(self) == *old(self),
            final(self).peer_seq() == old(self).peer_seq(),
            final(self).topology_of() == old(self).topology_of(),
            final(self).event_seq() == old(self).event_seq(),
            final(self).is_subscribed() == old(self).is_subscribed(),
            final(self).identity_of() == old(self).identity_of(),
            final(self).self_node_id() == old(self).self_node_id(),
            final(self).pending_seq() == old(self).pending_seq(),
    {
        if self.state != ManagerState::Uninitialized {
            return Err(CommonwareNetworkError::AlreadyStarted);
        }
        let signing_key = match self.identity.signing_key() {
            Ok(k) => k,
            Err(e) => {
                return Err(e);
            },
        };
        let listen_address = match self.identity.p2p_address() {
            Ok(a) => a,
            Err(e) => {
                return Err(e);
            },
        };
        let channels = match config.channels {
            Some(c) => c,
            None => {
                return Err(CommonwareNetworkError::ConfigError(String::from_str("channel buffer sizes are missing")));
            },
        };
        let mut regs: Vec<ChannelRegistration> = Vec::new();
        regs.push(ChannelRegistration { channel: DISCOVERY_CHANNEL, rate_per_second: CHANNEL_RATE_PER_SECOND, buffer: channels.discovery_buffer });
        regs.push(ChannelRegistration { channel: TASK_CHANNEL, rate_per_second: CHANNEL_RATE_PER_SECOND, buffer: channels.task_buffer });
        regs.push(ChannelRegistration { channel: STATE_CHANNEL, rate_per_second: CHANNEL_RATE_PER_SECOND, buffer: channels.state_buffer });
        regs.push(ChannelRegistration { channel: HEALTH_CHANNEL, rate_per_second: CHANNEL_RATE_PER_SECOND, buffer: channels.health_buffer });
        assert(regs@ =~= registrations_for(channels));
        self.state = ManagerState::Running;
        Ok(TransportPlan {
            signing_key,
            listen_address,
            namespace: String::from_str(NETWORK_NAMESPACE),
            max_frame_size: MAX_FRAME_SIZE,
            channels: regs,
        })
    }

    /// Claim the event stream; only the first claim succeeds.
    pub fn subscribe(&mut self) -> (r: Result<(), CommonwareNetworkError>)
        ensures
            old(self).is_subscribed() ==> r == Err::<(), CommonwareNetworkError>(CommonwareNetworkError::EventStreamTaken)
                && *final(self) == *old(self),
            !old(self).is_subscribed() ==> r is Ok && final(self).is_subscribed(),
            final(self).is_subscribed(),
            final(self).wf() == old(self).wf(),
            final(self).state_of() == old(self).state_of(),
            final(self).peer_seq() == old(self).peer_seq(),
            final(self).topology_of() == old(self).topology_of(),
            final(self).event_seq() == old(self).event_seq(),
            final(self).identity_of() == old(self).identity_of(),
            final(self).self_node_id() == old(self).self_node_id(),
            final(self).pending_seq() == old(self).pending_seq(),
    {
        if self.subscribed {
            return Err(CommonwareNetworkError::EventStreamTaken);
        }
        self.subscribed = true;
        Ok(())
    }

    /// Hand over the queued events, oldest first, and clear the queue.
    pub fn take_events(&mut self) -> (r: Vec<NetworkEvent>)
        ensures
            r@ == old(self).event_seq(),
            final(self).event_seq() == Seq::<NetworkEvent>::empty(),
            final(self).wf() == old(self).wf(),
            final(self).state_of() == old(self).state_of(),
            final(self).peer_seq() == old(self).peer_seq(),
            final(self).topology_of() == old(self).topology_of(),
            final(self).is_subscribed() == old(self).is_subscribed(),
            final(self).identity_of() == old(self).identity_of(),
            final(self).self_node_id() == old(self).self_node_id(),
            final(self).pending_seq() == old(self).pending_seq(),
    {
        let mut out: Vec<NetworkEvent> = Vec::new();
        std::mem::swap(&mut out, &mut self.events);
        out
    }

    /// Request shutdown: the manager stops for good; the caller's loops
    /// observe `shutdown_requested` at their next tick.
    pub fn shutdown(&mut self)
        ensures
            final(self).state_of() == ManagerState::Stopped,
            final(self).shutdown_requested(),
            final(self).wf() == old(self).wf(),
            final(self).peer_seq() == old(self).peer_seq(),
            final(self).topology_of() == old(self).topology_of(),
            final(self).event_seq() == old(self).event_seq(),
            final(self).is_subscribed() == old(self).is_subscribed(),
            final(self).identity_of() == old(self).identity_of(),
            final(self).self_node_id() == old(self).self_node_id(),
            final(self).pending_seq() == old(self).pending_seq(),
    {
        self.shutdown = true;
        self.state = ManagerState::Stopped;
    }

    /// Whether the network is running.
    pub fn is_running(&self) -> (r: bool)
        ensures
            r == (self.state_of() == ManagerState::Running),
    {
        self.state == ManagerState::Running
    }

    /// Whether shutdown has been requested.
    pub fn is_shutdown(&self) -> (r: bool)
        ensures
            r == self.shutdown_requested(),
    {
        self.shutdown
    }

    /// The lifecycle state.
    pub fn state(&self) -> (r: ManagerState)
        ensures
            r == self.state_of(),
    {
        self.state
    }

    /// The current topology.
    pub fn get_topology(&self) -> (r: &NetworkTopology)
        ensures
            *r == self.topology_of(),
    {
        &self.topology
    }

    /// The known peers.
    pub fn peers(&self) -> (r: &Vec<PeerInfo>)
        ensures
            r@ == self.peer_seq(),
    {
        &self.peers
    }

    /// Number of known peers.
    pub fn peer_count(&self) -> (r: usize)
        ensures
            r == self.peer_seq().len(),
    {
        self.peers.len()
    }

    /// The public keys of the peers of role `node_type`.
    fn keys_for_role(&self, node_type: NodeType) -> (r: Vec<Vec<u8>>)
        ensures
            key_views(r@) == keys_of_role(self.peer_seq(), node_type_name(node_type)),
    {
        let name = String::from_str(node_type.as_str_name());
        let ghost nm = node_type_name(node_type);
        let ghost p = peer_has_role(nm);
        let ghost s = self.peers@;
        let mut out: Vec<Vec<u8>> = Vec::new();
        let mut i: usize = 0;
        while i < self.peers.len()
            invariant
                s == self.peers@,
                i <= s.len(),
                name@ == nm,
                p == peer_has_role(nm),
                key_views(out@) == s.subrange(0, i as int).filter(p).map_values(|x: PeerInfo| x.public_key@),
            decreases s.len() - i,
        {
            let ghost before = out@;
            assert(s.subrange(0, i + 1) =~= s.subrange(0, i as int).push(s[i as int]));
            proof { s.subrange(0, i as int).lemma_filter_push(s[i as int], p); }
            if self.peers[i].node_info.node_type == name {
                let k = copy_bytes(&self.peers[i].public_key);
                out.push(k);
                let ghost f = s.subrange(0, i as int).filter(p);
                assert(f.push(s[i as int]).map_values(|x: PeerInfo| x.public_key@) =~= f.map_values(|x: PeerInfo| x.public_key@).push(s[i as int].public_key@));
                assert(key_views(out@) =~= key_views(before).push(s[i as int].public_key@));
            }
            i = i + 1;
        }
        assert(s.subrange(0, s.len() as int) =~= s);
        out
    }

    /// Address `msg` to every known peer of role `role` on the channel of
    /// its kind. Refused before start, when no such peer is known, and for
    /// an envelope with no kind.
    pub fn send_to_role(&mut self, role: NodeType, msg: NetworkMessage) -> (r: Result<Outbound, CommonwareNetworkError>)
        ensures
            *final(self) == *old(self),
            old(self).state_of() != ManagerState::Running ==> r == Err::<Outbound, CommonwareNetworkError>(CommonwareNetworkError::NotInitialized),
            old(self).state_of() == ManagerState::Running && keys_of_role(old(self).peer_seq(), node_type_name(role)).len() == 0
                ==> (r matches Err(CommonwareNetworkError::NoPeersForRole(s)) && s@ == role_label(role)),
            old(self).state_of() == ManagerState::Running && keys_of_role(old(self).peer_seq(), node_type_name(role)).len() > 0
                && msg.message_type is None ==> r matches Err(CommonwareNetworkError::ChannelError(_)),
            r is Ok <==> (old(self).state_of() == ManagerState::Running
                && keys_of_role(old(self).peer_seq(), node_type_name(role)).len() > 0 && msg.message_type is Some),
            r matches Ok(out) ==> {
                &&& out.channel == channel_of(msg.message_type.unwrap())
                &&& out.recipients matches Recipients::Listed(v) && key_views(v@) == keys_of_role(old(self).peer_seq(), node_type_name(role))
                &&& out.message == msg
                &&& !out.ack_required
            },
    {
        if self.state != ManagerState::Running {
            return Err(CommonwareNetworkError::NotInitialized);
        }
        let targets = self.keys_for_role(role);
        if targets.len() == 0 {
            return Err(CommonwareNetworkError::NoPeersForRole(String::from_str(role_label_str(role))));
        }
        let channel = match msg.channel() {
            Some(c) => c,
            None => {
                return Err(CommonwareNetworkError::ChannelError(String::from_str("message has no kind")));
            },
        };
        Ok(Outbound { channel, recipients: Recipients::Listed(targets), message: msg, ack_required: false })
    }

    /// Address `msg` to all peers on the channel of its kind. Refused before
    /// start and for an envelope with no kind.
    pub fn broadcast(&mut self, msg: NetworkMessage) -> (r: Result<Outbound, CommonwareNetworkError>)
        ensures
            *final(self) == *old(self),
            old(self).state_of() != ManagerState::Running ==> r == Err::<Outbound, CommonwareNetworkError>(CommonwareNetworkError::NotInitialized),
            old(self).state_of() == ManagerState::Running && msg.message_type is None ==> r matches Err(CommonwareNetworkError::ChannelError(_)),
            r is Ok <==> (old(self).state_of() == ManagerState::Running && msg.message_type is Some),
            r matches Ok(out) ==> {
                &&& out.channel == channel_of(msg.message_type.unwrap())
                &&& out.recipients == Recipients::All
                &&& out.message == msg
                &&& !out.ack_required
            },
    {
        if self.state != ManagerState::Running {
            return Err(CommonwareNetworkError::NotInitialized);
        }
        let channel = match msg.channel() {
            Some(c) => c,
            None => {
                return Err(CommonwareNetworkError::ChannelError(String::from_str("message has no kind")));
            },
        };
        Ok(Outbound { channel, recipients: Recipients::All, message: msg, ack_required: false })
    }

    /// Record activity from the peer with key `key`, if known.
    fn touch_peer(&mut self, key: &Vec<u8>, now_ms: u64)
        requires
            old(self).wf(),
        ensures
            final(self).wf(),
            final(self).peers@.len() == old(self).peers@.len(),
            forall|i: int| 0 <= i < final(self).peers@.len() ==> {
                &&& (#[trigger] final(self).peers@[i]).public_key@ == old(self).peers@[i].public_key@
                &&& final(self).peers@[i].node_info == old(self).peers@[i].node_info
                &&& final(self).peers@[i].last_seen == if old(self).peers@[i].public_key@ == key@ { now_ms } else { old(self).peers@[i].last_seen }
            },
            final(self).topology == old(self).topology,
            final(self).events == old(self).events,
            final(self).state == old(self).state,
            final(self).subscribed == old(self).subscribed,
            final(self).shutdown == old(self).shutdown,
            final(self).identity == old(self).identity,
            final(self).self_id == old(self).self_id,
            final(self).pending == old(self).pending,
    {
        let ghost peers0 = self.peers@;
        let mut i: usize = 0;
        while i < self.peers.len()
            invariant
                self.wf(),
                i <= self.peers@.len(),
                self.peers@.len() == peers0.len(),
                keys_unique(peers0),
                forall|j: int| 0 <= j < self.peers@.len() ==> {
                    &&& (#[trigger] self.peers@[j]).public_key@ == peers0[j].public_key@
                    &&& self.peers@[j].node_info == peers0[j].node_info
                    &&& self.peers@[j].last_seen == if j < i && peers0[j].public_key@ == key@ { now_ms } else { peers0[j].last_seen }
                },
                self.topology == old(self).topology,
                self.events == old(self).events,
                self.state == old(self).state,
                self.subscribed == old(self).subscribed,
                self.shutdown == old(self).shutdown,
                self.identity == old(self).identity,
                self.self_id == old(self).self_id,
                self.pending == old(self).pending,
            decreases peers0.len() - i,
        {
            if bytes_eq(&self.peers[i].public_key, key) {
                let mut p = self.peers[i].clone();
                p.last_seen = now_ms;
                self.peers.set(i, p);
            }
            i = i + 1;
        }
    }

    /// Record a peer's announcement: update the peer with key `key`, or add
    /// it; reports whether the peer is new.
    fn upsert_peer(&mut self, key: Vec<u8>, info: NodeInfo, now_ms: u64) -> (added: bool)
        requires
            old(self).wf(),
        ensures
            final(self).wf(),
            added == !(exists|i: int| 0 <= i < old(self).peers@.len() && old(self).peers@[i].public_key@ == key@),
            added ==> final(self).peers@ == old(self).peers@.push(PeerInfo { public_key: key, node_info: info, last_seen: now_ms }),
            !added ==> final(self).peers@.len() == old(self).peers@.len(),
            exists|i: int| 0 <= i < final(self).peers@.len() && final(self).peers@[i].public_key@ == key@
                && final(self).peers@[i].node_info == info && final(self).peers@[i].last_seen == now_ms,
            final(self).topology == old(self).topology,
            final(self).events == old(self).events,
            final(self).state == old(self).state,
            final(self).subscribed == old(self).subscribed,
            final(self).shutdown == old(self).shutdown,
            final(self).identity == old(self).identity,
            final(self).self_id == old(self).self_id,
            final(self).pending == old(self).pending,
    {
        let mut i: usize = 0;
        while i < self.peers.len()
            invariant
                self == old(self),
                self.wf(),
                i <= self.peers@.len(),
                forall|j: int| 0 <= j < i ==> self.peers@[j].public_key@ != key@,
            decreases self.peers@.len() - i,
        {
            if bytes_eq(&self.peers[i].public_key, &key) {
                let ghost peers0 = self.peers@;
                let p = PeerInfo { public_key: key, node_info: info, last_seen: now_ms };
                self.peers.set(i, p);
                assert(keys_unique(self.peers@)) by {
                    assert forall|a: int, b: int| 0 <= a < self.peers@.len() && 0 <= b < self.peers@.len() && a != b
                        implies self.peers@[a].public_key@ != self.peers@[b].public_key@ by {
                        if a == i as int {
                            assert(peers0[b].public_key@ != peers0[a].public_key@);
                        } else if b == i as int {
                            assert(peers0[a].public_key@ != peers0[b].public_key@);
                        }
                    }
                }
                assert(self.peers@[i as int].public_key@ == key@);
                return false;
            }
            i = i + 1;
        }
        let ghost peers0 = self.peers@;
        self.peers.push(PeerInfo { public_key: key, node_info: info, last_seen: now_ms });
        assert(self.peers@[peers0.len() as int].public_key@ == key@);
        true
    }

    /// Remove the pending request with id `id`; reports whether one was there.
    fn complete_request(&mut self, id: &String) -> (found: bool)
        ensures
            found == exists|i: int| 0 <= i < old(self).pending@.len() && old(self).pending@[i].request_id@ == id@,
            found ==> final(self).pending@.len() == old(self).pending@.len() - 1,
            found ==> exists|i: int| first_with_id(old(self).pending@, id@, i) && final(self).pending@ == old(self).pending@.remove(i),
            !found ==> final(self).pending == old(self).pending,
            forall|i: int| 0 <= i < final(self).pending@.len() ==> old(self).pending@.contains(#[trigger] final(self).pending@[i]),
            final(self).peers == old(self).peers,
            final(self).topology == old(self).topology,
            final(self).events == old(self).events,
            final(self).state == old(self).state,
            final(self).subscribed == old(self).subscribed,
            final(self).shutdown == old(self).shutdown,
            final(self).identity == old(self).identity,
            final(self).self_id == old(self).self_id,
    {
        let mut i: usize = 0;
        while i < self.pending.len()
            invariant
                self == old(self),
                i <= self.pending@.len(),
                forall|j: int| 0 <= j < i ==> self.pending@[j].request_id@ != id@,
            decreases self.pending@.len() - i,
        {
            if self.pending[i].request_id == *id {
                let ghost q0 = self.pending@;
                self.pending.remove(i);
                assert(first_with_id(q0, id@, i as int));
                assert forall|k: int| 0 <= k < self.pending@.len() implies q0.contains(#[trigger] self.pending@[k]) by {
                    if k < i {
                        assert(self.pending@[k] == q0[k]);
                    } else {
                        assert(self.pending@[k] == q0[k + 1]);
                    }
                }
                return true;
            }
            i = i + 1;
        }
        assert forall|k: int| 0 <= k < self.pending@.len() implies old(self).pending@.contains(#[trigger] self.pending@[k]) by {}
        false
    }

    /// Process one inbound delivery from the peer with key `from` on
    /// `channel`: `decoded` is the decoded message, or `None` where decoding
    /// or the transport failed. A failure becomes an `Error` event. A message
    /// refreshes the sender's activity time, an announcement records the
    /// sender as a peer and as a topology node, a response completes the
    /// pending request with its id (returned), and a `MessageReceived`
    /// event is queued last.
    pub fn handle_inbound(&mut self, from: Vec<u8>, channel: u8, decoded: Option<NetworkMessage>, now_ms: u64) -> (completed: Option<String>)
        requires
            old(self).wf(),
        ensures
            final(self).wf(),
            final(self).state_of() == old(self).state_of(),
            final(self).is_subscribed() == old(self).is_subscribed(),
            final(self).identity_of() == old(self).identity_of(),
            final(self).self_node_id() == old(self).self_node_id(),
            final(self).shutdown_requested() == old(self).shutdown_requested(),
            decoded is None ==> {
                &&& final(self).event_seq().len() == old(self).event_seq().len() + 1
                &&& final(self).event_seq().subrange(0, old(self).event_seq().len() as int) == old(self).event_seq()
                &&& final(self).event_seq().last().event_type matches Some(EventType::Error(e))
                &&& final(self).event_seq().last().event_type.unwrap()->Error_0.error@ == receive_error_text(channel)
                &&& final(self).pending_seq() == old(self).pending_seq()
                &&& final(self).peer_seq() == old(self).peer_seq()
                &&& final(self).topology_of() == old(self).topology_of()
                &&& completed is None
            },
            decoded matches Some(msg) ==> {
                &&& final(self).event_seq().len() > old(self).event_seq().len()
                &&& final(self).event_seq().subrange(0, old(self).event_seq().len() as int) == old(self).event_seq()
                &&& final(self).event_seq().last() == (NetworkEvent { event_type: Some(EventType::MessageReceived(
                        MessageReceived { from: final(self).event_seq().last().event_type.unwrap()->MessageReceived_0.from, message: Some(msg), channel: channel as u32 })) })
                &&& final(self).event_seq().last().event_type.unwrap()->MessageReceived_0.from@ == from@
            },
            decoded is Some && !(announce_of(decoded) is Some && !is_known_peer(old(self).peer_seq(), from@))
                ==> final(self).event_seq().len() == old(self).event_seq().len() + 1,
            announce_of(decoded) is Some && !is_known_peer(old(self).peer_seq(), from@) ==> {
                &&& final(self).event_seq().len() == old(self).event_seq().len() + 2
                &&& final(self).event_seq()[old(self).event_seq().len() as int].event_type matches Some(EventType::PeerConnected(pc))
                &&& final(self).event_seq()[old(self).event_seq().len() as int].event_type.unwrap()->PeerConnected_0.peer_id@ == from@
                &&& final(self).event_seq()[old(self).event_seq().len() as int].event_type.unwrap()->PeerConnected_0.node_info
                    == Some(final(self).topology_of().node_map()[announce_of(decoded).unwrap().node_id@])
            },
            response_of(decoded) is None ==> final(self).pending_seq() == old(self).pending_seq(),
            completed is None ==> final(self).pending_seq() == old(self).pending_seq(),
            response_of(decoded) is Some && completed is Some ==> exists|i: int|
                first_with_id(old(self).pending_seq(), response_of(decoded).unwrap().request_id@, i)
                && final(self).pending_seq() == old(self).pending_seq().remove(i),
            decoded is Some && announce_of(decoded) is None ==> {
                &&& final(self).topology_of() == old(self).topology_of()
                &&& final(self).peer_seq().len() == old(self).peer_seq().len()
                &&& forall|i: int| 0 <= i < final(self).peer_seq().len() ==> {
                    &&& (#[trigger] final(self).peer_seq()[i]).public_key@ == old(self).peer_seq()[i].public_key@
                    &&& final(self).peer_seq()[i].node_info == old(self).peer_seq()[i].node_info
                    &&& final(self).peer_seq()[i].last_seen == if old(self).peer_seq()[i].public_key@ == from@ { now_ms } else { old(self).peer_seq()[i].last_seen }
                }
            },
            announce_of(decoded) matches Some(a) ==> {
                &&& final(self).topology_of().node_map().contains_key(a.node_id@)
                &&& final(self).topology_of().node_map()[a.node_id@].online
                &&& final(self).topology_of().node_map()[a.node_id@].node_id@ == a.node_id@
                &&& final(self).topology_of().node_map()[a.node_id@].node_type@ == node_type_name(role_of_code(a.role))
                &&& final(self).topology_of().node_map()[a.node_id@].last_seen == now_ms / 1000
                &&& final(self).topology_of().node_map() == old(self).topology_of().node_map().insert(a.node_id@, final(self).topology_of().node_map()[a.node_id@])
                &&& exists|i: int| 0 <= i < final(self).peer_seq().len() && final(self).peer_seq()[i].public_key@ == from@
                    && final(self).peer_seq()[i].last_seen == now_ms
                    && final(self).peer_seq()[i].node_info == final(self).topology_of().node_map()[a.node_id@]
            },
            completed matches Some(id) ==> response_of(decoded) is Some
                && response_of(decoded).unwrap().request_id@ == id@
                && exists|i: int| 0 <= i < old(self).pending_seq().len() && old(self).pending_seq()[i].request_id@ == id@,
            response_of(decoded) matches Some(resp) ==> (completed is Some <==>
                exists|i: int| 0 <= i < old(self).pending_seq().len() && old(self).pending_seq()[i].request_id@ == resp.request_id@),
    {
        let ghost ev0 = self.events@;
        let msg = match decoded {
            None => {
                let mut text = String::from_str("receive failure on channel ");
                let c = crate::text::decimal_string(channel as u64);
                text.append(c.as_str());
                self.events.push(NetworkEvent { event_type: Some(EventType::Error(NetworkError { error: text })) });
                assert(self.events@.subrange(0, ev0.len() as int) =~= ev0);
                return None;
            },
            Some(m) => m,
        };
        let ghost peers_before = self.peers@;
        self.touch_peer(&from, now_ms);
        assert(is_known_peer(self.peers@, from@) == is_known_peer(peers_before, from@)) by {
            if is_known_peer(peers_before, from@) {
                let i = choose|i: int| 0 <= i < peers_before.len() && peers_before[i].public_key@ == from@;
                assert(self.peers@[i].public_key@ == from@);
            }
            if is_known_peer(self.peers@, from@) {
                let i = choose|i: int| 0 <= i < self.peers@.len() && self.peers@[i].public_key@ == from@;
                assert(self.peers@[i].public_key@ == peers_before[i].public_key@);
            }
        }
        let mut completed: Option<String> = None;
        let ghost mut peer_at: int = 0;
        let ghost mut pending_at: int = 0;
        match &msg.message_type {
            Some(MessageType::NodeAnnounce(a)) => {
                let role = match NodeType::from_code(a.role) {
                    Some(t) => t,
                    None => NodeType::Unspecified,
                };
                let info = NodeInfo {
                    node_id: a.node_id.clone(),
                    node_type: String::from_str(role.as_str_name()),
                    online: true,
                    last_seen: now_ms / 1000,
                };
                let ghost m0 = self.topology.node_map();
                self.topology.add_node(info.clone());
                assert(self.topology.node_map() == m0.insert(a.node_id@, info));
                let reported = info.clone();
                let added = self.upsert_peer(copy_bytes(&from), info, now_ms);
                assert(added == !is_known_peer(peers_before, from@));
                if added {
                    let ghost before = self.events@;
                    self.events.push(NetworkEvent { event_type: Some(EventType::PeerConnected(PeerConnected { peer_id: copy_bytes(&from), node_info: Some(reported) })) });
                    assert(self.events@.subrange(0, ev0.len() as int) =~= ev0);
                    assert(self.events@[ev0.len() as int].event_type.unwrap()->PeerConnected_0.node_info == Some(info));
                }
                proof {
                    peer_at = choose|i: int| 0 <= i < self.peers@.len() && self.peers@[i].public_key@ == from@
                        && self.peers@[i].last_seen == now_ms && self.peers@[i].node_info == info;
                }
            },
            Some(MessageType::Response(resp)) => {
                let ghost q0 = self.pending@;
                if self.complete_request(&resp.request_id) {
                    completed = Some(resp.request_id.clone());
                    proof {
                        pending_at = choose|i: int| 0 <= i < q0.len() && q0[i].request_id@ == resp.request_id@;
                    }
                }
            },
            _ => {},
        }
        let ghost before = self.events@;
        let ghost from_view = from@;
        self.events.push(NetworkEvent { event_type: Some(EventType::MessageReceived(MessageReceived { from, message: Some(msg), channel: channel as u32 })) });
        assert(self.events@.subrange(0, ev0.len() as int) =~= ev0);
        proof {
            if announce_of(decoded) is Some {
                assert(self.peer_seq()[peer_at].public_key@ == from_view);
            }
            if completed is Some {
                assert(old(self).pending_seq()[pending_at].request_id@ == completed.unwrap()@);
            }
        }
        completed
    }

    /// The maintenance tick: evict every peer silent for longer than the
    /// eviction window, drop its node and links from the topology, and queue
    /// one timeout event per evicted peer. Returns the evicted keys.
    pub fn maintenance_tick(&mut self, now_ms: u64) -> (evicted: Vec<Vec<u8>>)
        requires
            old(self).wf(),
        ensures
            final(self).wf(),
            final(self).peer_seq() == old(self).peer_seq().filter(peer_is_fresh(now_ms)),
            key_views(evicted@) == old(self).peer_seq().filter(peer_is_stale(now_ms)).map_values(|p: PeerInfo| p.public_key@),
            final(self).topology_of().node_map() == old(self).topology_of().node_map().remove_keys(stale_ids(old(self).peer_seq(), now_ms)),
            final(self).topology_of().edges() == old(self).topology_of().edges().filter(edge_avoids_all(stale_ids(old(self).peer_seq(), now_ms))),
            forall|e: (Seq<char>, Seq<char>)| #[trigger] final(self).topology_of().edges().contains(e) <==> (
                old(self).topology_of().edges().contains(e)
                && !stale_ids(old(self).peer_seq(), now_ms).contains(e.0)
                && !stale_ids(old(self).peer_seq(), now_ms).contains(e.1)),
            final(self).event_seq().len() == old(self).event_seq().len() + evicted@.len(),
            final(self).event_seq().subrange(0, old(self).event_seq().len() as int) == old(self).event_seq(),
            forall|j: int| 0 <= j < evicted@.len() ==> is_timeout_event(
                #[trigger] final(self).event_seq()[old(self).event_seq().len() + j], evicted@[j]@),
            final(self).state_of() == old(self).state_of(),
            final(self).is_subscribed() == old(self).is_subscribed(),
            final(self).shutdown_requested() == old(self).shutdown_requested(),
            final(self).identity_of() == old(self).identity_of(),
            final(self).self_node_id() == old(self).self_node_id(),
            final(self).pending_seq() == old(self).pending_seq(),
    {
        let ghost peers0 = self.peers@;
        let _count = self.peers.len();
        let ghost map0 = self.topology.node_map();
        let ghost edges0 = self.topology.edges();
        let ghost ev0 = self.events@;
        let ghost fresh = peer_is_fresh(now_ms);
        let ghost stale = peer_is_stale(now_ms);
        let mut rest: Vec<PeerInfo> = Vec::new();
        std::mem::swap(&mut rest, &mut self.peers);
        let mut kept: Vec<PeerInfo> = Vec::new();
        let mut evicted: Vec<Vec<u8>> = Vec::new();
        let mut i: usize = 0;
        assert(stale_ids(peers0.subrange(0, 0), now_ms) =~= Set::<Seq<char>>::empty());
        assert(map0.remove_keys(Set::<Seq<char>>::empty()) =~= map0);
        proof {
            let p0 = edge_avoids_all(Set::<Seq<char>>::empty());
            lemma_filter_all_kept(edges0, p0);
        }
        while rest.len() > 0
            invariant
                keys_unique(peers0),
                peers0.len() <= usize::MAX,
                i <= peers0.len(),
                rest@ == peers0.subrange(i as int, peers0.len() as int),
                fresh == peer_is_fresh(now_ms),
                stale == peer_is_stale(now_ms),
                kept@ == peers0.subrange(0, i as int).filter(fresh),
                keys_unique(kept@),
                forall|j: int| 0 <= j < kept@.len() ==> peers0.subrange(0, i as int).contains(#[trigger] kept@[j]),
                key_views(evicted@) == peers0.subrange(0, i as int).filter(stale).map_values(|p: PeerInfo| p.public_key@),
                self.topology.wf(),
                self.topology.node_map() == map0.remove_keys(stale_ids(peers0.subrange(0, i as int), now_ms)),
                self.topology.edges() == edges0.filter(edge_avoids_all(stale_ids(peers0.subrange(0, i as int), now_ms))),
                forall|e: (Seq<char>, Seq<char>)| #[trigger] self.topology.edges().contains(e) <==> (
                    edges0.contains(e)
                    && !stale_ids(peers0.subrange(0, i as int), now_ms).contains(e.0)
                    && !stale_ids(peers0.subrange(0, i as int), now_ms).contains(e.1)),
                self.events@.len() == ev0.len() + evicted@.len(),
                self.events@.subrange(0, ev0.len() as int) == ev0,
                forall|j: int| 0 <= j < evicted@.len() ==> is_timeout_event(#[trigger] self.events@[ev0.len() + j], evicted@[j]@),
                self.state == old(self).state,
                self.subscribed == old(self).subscribed,
                self.shutdown == old(self).shutdown,
                self.identity == old(self).identity,
                self.self_id == old(self).self_id,
                self.pending == old(self).pending,
            decreases rest@.len(),
        {
            let ghost pre = peers0.subrange(0, i as int);
            assert(i < peers0.len());
            let p = rest.remove(0);
            let ghost x = p;
            assert(peers0.subrange(0, i + 1) =~= pre.push(x));
            assert(rest@ =~= peers0.subrange(i + 1, peers0.len() as int));
            proof {
                pre.lemma_filter_push(x, fresh);
                pre.lemma_filter_push(x, stale);
            }
            let ghost s0 = stale_ids(pre, now_ms);
            if now_ms > p.last_seen && now_ms - p.last_seen > STALE_AFTER_MS {
                let ghost s1 = s0.insert(x.node_info.node_id@);
                assert(stale_ids(pre.push(x), now_ms) =~= s1) by {
                    assert forall|k: Seq<char>| #[trigger] s1.contains(k) implies stale_ids(pre.push(x), now_ms).contains(k) by {
                        if k == x.node_info.node_id@ {
                            assert(pre.push(x)[pre.len() as int] == x);
                        } else {
                            let m = choose|m: int| 0 <= m < pre.len() && is_stale(pre[m], now_ms) && pre[m].node_info.node_id@ == k;
                            assert(pre.push(x)[m] == pre[m]);
                        }
                    }
                    assert forall|k: Seq<char>| #[trigger] stale_ids(pre.push(x), now_ms).contains(k) implies s1.contains(k) by {
                        let m = choose|m: int| 0 <= m < pre.len() + 1 && is_stale(pre.push(x)[m], now_ms) && pre.push(x)[m].node_info.node_id@ == k;
                        if m < pre.len() {
                            assert(pre.push(x)[m] == pre[m]);
                        }
                    }
                }
                let ghost mb = self.topology.node_map();
                self.topology.remove_node(p.node_info.node_id.as_str());
                proof {
                    lemma_filter_twice(edges0, edge_avoids_all(s0), edge_avoids(x.node_info.node_id@));
                    assert(both_hold(edge_avoids_all(s0), edge_avoids(x.node_info.node_id@)) =~= edge_avoids_all(s1));
                }
                assert(map0.remove_keys(s1) =~= mb.remove(x.node_info.node_id@));
                let ghost eb = evicted@;
                let k1 = copy_bytes(&p.public_key);
                let k2 = copy_bytes(&p.public_key);
                self.events.push(NetworkEvent { event_type: Some(EventType::PeerDisconnected(PeerDisconnected { peer_id: k1, reason: String::from_str("Timeout") })) });
                proof { reveal_strlit("Timeout"); }
                evicted.push(k2);
                assert(key_views(evicted@) =~= key_views(eb).push(x.public_key@));
                assert(pre.filter(stale).push(x).map_values(|q: PeerInfo| q.public_key@)
                    =~= pre.filter(stale).map_values(|q: PeerInfo| q.public_key@).push(x.public_key@));
                assert(self.events@.subrange(0, ev0.len() as int) =~= ev0);
                assert forall|j: int| 0 <= j < evicted@.len() implies is_timeout_event(#[trigger] self.events@[ev0.len() + j], evicted@[j]@) by {
                    if j < eb.len() {
                        assert(evicted@[j] == eb[j]);
                    }
                }
                assert forall|j: int| 0 <= j < kept@.len() implies pre.push(x).contains(#[trigger] kept@[j]) by {
                    assert(pre.contains(kept@[j]));
                    let m = choose|m: int| 0 <= m < pre.len() && pre[m] == kept@[j];
                    assert(pre.push(x)[m] == kept@[j]);
                }
            } else {
                assert(stale_ids(pre.push(x), now_ms) =~= s0) by {
                    assert forall|k: Seq<char>| #[trigger] stale_ids(pre.push(x), now_ms).contains(k) implies s0.contains(k) by {
                        let m = choose|m: int| 0 <= m < pre.len() + 1 && is_stale(pre.push(x)[m], now_ms) && pre.push(x)[m].node_info.node_id@ == k;
                        if m < pre.len() {
                            assert(pre.push(x)[m] == pre[m]);
                        }
                    }
                    assert forall|k: Seq<char>| #[trigger] s0.contains(k) implies stale_ids(pre.push(x), now_ms).contains(k) by {
                        let m = choose|m: int| 0 <= m < pre.len() && is_stale(pre[m], now_ms) && pre[m].node_info.node_id@ == k;
                        assert(pre.push(x)[m] == pre[m]);
                    }
                }
                let ghost kb = kept@;
                assert forall|j: int| 0 <= j < kb.len() implies kb[j].public_key@ != x.public_key@ by {
                    assert(pre.contains(kb[j]));
                    let m = choose|m: int| 0 <= m < pre.len() && pre[m] == kb[j];
                    assert(peers0[m] == pre[m]);
                    assert(peers0[i as int] == x);
                }
                kept.push(p);
                assert forall|j: int| 0 <= j < kept@.len() implies pre.push(x).contains(#[trigger] kept@[j]) by {
                    if j < kb.len() {
                        assert(pre.contains(kb[j]));
                        let m = choose|m: int| 0 <= m < pre.len() && pre[m] == kb[j];
                        assert(pre.push(x)[m] == kb[j]);
                    } else {
                        assert(pre.push(x)[pre.len() as int] == x);
                    }
                }
            }
            i = i + 1;
        }
        assert(peers0.subrange(0, i as int) =~= peers0);
        self.peers = kept;
        evicted
    }

    /// Address `req` to the one peer `peer` with acknowledgement required,
    /// and track it as pending until `now_ms + timeout_ms` (saturating).
    /// Returns the send and the id a response must carry: the id of a
    /// `Request`, or a fresh random one for any other kind. Refused before
    /// start and for an envelope with no kind.
    pub fn request(&mut self, peer: Vec<u8>, req: NetworkMessage, now_ms: u64, timeout_ms: u64)
        -> (r: Result<(Outbound, String), CommonwareNetworkError>)
        requires
            old(self).wf(),
        ensures
            final(self).wf(),
            old(self).state_of() != ManagerState::Running ==> r == Err::<(Outbound, String), CommonwareNetworkError>(CommonwareNetworkError::NotInitialized),
            old(self).state_of() == ManagerState::Running && req.message_type is None ==> r matches Err(CommonwareNetworkError::ChannelError(_)),
            r is Ok <==> (old(self).state_of() == ManagerState::Running && req.message_type is Some),
            r is Err ==> *final(self) == *old(self),
            r matches Ok((out, id)) ==> {
                &&& out.channel == channel_of(req.message_type.unwrap())
                &&& out.recipients matches Recipients::One(k) && k@ == peer@
                &&& out.message == req
                &&& out.ack_required
                &&& (req.message_type.unwrap() matches MessageType::Request(q) ==> id@ == q.request_id@)
                &&& (!(req.message_type.unwrap() is Request) ==> id@.len() == 36)
                &&& final(self).pending_seq().len() == old(self).pending_seq().len() + 1
                &&& final(self).pending_seq().subrange(0, old(self).pending_seq().len() as int) == old(self).pending_seq()
                &&& final(self).pending_seq().last().request_id@ == id@
                &&& final(self).pending_seq().last().peer@ == peer@
                &&& final(self).pending_seq().last().deadline == if now_ms + timeout_ms > u64::MAX { u64::MAX as int } else { now_ms + timeout_ms }
            },
            final(self).state_of() == old(self).state_of(),
            final(self).peer_seq() == old(self).peer_seq(),
            final(self).topology_of() == old(self).topology_of(),
            final(self).event_seq() == old(self).event_seq(),
            final(self).is_subscribed() == old(self).is_subscribed(),
            final(self).identity_of() == old(self).identity_of(),
            final(self).self_node_id() == old(self).self_node_id(),
    {
        if self.state != ManagerState::Running {
            return Err(CommonwareNetworkError::NotInitialized);
        }
        let channel = match req.channel() {
            Some(c) => c,
            None => {
                return Err(CommonwareNetworkError::ChannelError(String::from_str("message has no kind")));
            },
        };
        let id = match &req.message_type {
            Some(MessageType::Request(q)) => q.request_id.clone(),
            _ => IdGenerator::new_uuid_string(),
        };
        let deadline = now_ms.saturating_add(timeout_ms);
        let ghost q0 = self.pending@;
        self.pending.push(PendingRequest { request_id: id.clone(), peer: copy_bytes(&peer), deadline });
        assert(self.pending@.subrange(0, q0.len() as int) =~= q0);
        Ok((Outbound { channel, recipients: Recipients::One(peer), message: req, ack_required: true }, id))
    }

    /// Drop the requests whose deadline has passed at `now_ms` and return
    /// their ids, oldest first: their callers get `CollectorTimeout`.
    pub fn expire_requests(&mut self, now_ms: u64) -> (expired: Vec<String>)
        requires
            old(self).wf(),
        ensures
            final(self).wf(),
            final(self).pending_seq() == old(self).pending_seq().filter(is_waiting(now_ms)),
            expired@.map_values(|s: String| s@) == old(self).pending_seq().filter(is_expired(now_ms)).map_values(|q: PendingRequest| q.request_id@),
            final(self).state_of() == old(self).state_of(),
            final(self).peer_seq() == old(self).peer_seq(),
            final(self).topology_of() == old(self).topology_of(),
            final(self).event_seq() == old(self).event_seq(),
            final(self).is_subscribed() == old(self).is_subscribed(),
            final(self).identity_of() == old(self).identity_of(),
            final(self).self_node_id() == old(self).self_node_id(),
    {
        let ghost q0 = self.pending@;
        let _count = self.pending.len();
        let ghost waiting = is_waiting(now_ms);
        let ghost gone = is_expired(now_ms);
        let mut rest: Vec<PendingRequest> = Vec::new();
        std::mem::swap(&mut rest, &mut self.pending);
        let mut kept: Vec<PendingRequest> = Vec::new();
        let mut expired: Vec<String> = Vec::new();
        let mut i: usize = 0;
        while rest.len() > 0
            invariant
                q0.len() <= usize::MAX,
                i <= q0.len(),
                rest@ == q0.subrange(i as int, q0.len() as int),
                waiting == is_waiting(now_ms),
                gone == is_expired(now_ms),
                kept@ == q0.subrange(0, i as int).filter(waiting),
                expired@.map_values(|s: String| s@) == q0.subrange(0, i as int).filter(gone).map_values(|q: PendingRequest| q.request_id@),
                self.wf(),
                self.peers == old(self).peers,
                self.topology == old(self).topology,
                self.events == old(self).events,
                self.state == old(self).state,
                self.subscribed == old(self).subscribed,
                self.shutdown == old(self).shutdown,
                self.identity == old(self).identity,
                self.self_id == old(self).self_id,
            decreases rest@.len(),
        {
            let ghost pre = q0.subrange(0, i as int);
            assert(i < q0.len());
            let q = rest.remove(0);
            let ghost x = q;
            assert(q0.subrange(0, i + 1) =~= pre.push(x));
            assert(rest@ =~= q0.subrange(i + 1, q0.len() as int));
            proof {
                pre.lemma_filter_push(x, waiting);
                pre.lemma_filter_push(x, gone);
            }
            if q.deadline <= now_ms {
                let ghost eb = expired@;
                expired.push(q.request_id);
                assert(expired@.map_values(|s: String| s@) =~= eb.map_values(|s: String| s@).push(x.request_id@));
                assert(pre.filter(gone).push(x).map_values(|p: PendingRequest| p.request_id@)
                    =~= pre.filter(gone).map_values(|p: PendingRequest| p.request_id@).push(x.request_id@));
            } else {
                kept.push(q);
            }
            i = i + 1;
        }
        assert(q0.subrange(0, i as int) =~= q0);
        self.pending = kept;
        expired
    }

    /// Announce this node on the discovery channel: its id, its role, its
    /// capabilities and its load. Refused before start and for a role name
    /// that is not one of the known roles.
    pub fn announce_node(&mut self) -> (r: Result<Outbound, CommonwareNetworkError>)
        requires
            old(self).wf(),
        ensures
            *final(self) == *old(self),
            old(self).state_of() != ManagerState::Running ==> r == Err::<Outbound, CommonwareNetworkError>(CommonwareNetworkError::NotInitialized),
            old(self).state_of() == ManagerState::Running && crate::types::node_type_of_name(old(self).identity_of().node_type@) is None
                ==> r matches Err(CommonwareNetworkError::InvalidNodeType(_)),
            r is Ok <==> (old(self).state_of() == ManagerState::Running
                && crate::types::node_type_of_name(old(self).identity_of().node_type@) is Some),
            r matches Ok(out) ==> {
                &&& out.channel == DISCOVERY_CHANNEL
                &&& out.recipients == Recipients::All
                &&& !out.ack_required
                &&& out.message.message_type matches Some(MessageType::NodeAnnounce(a))
                &&& a.node_id@ == old(self).self_node_id()
                &&& a.node_id@ == hex_of(ed25519_public_bytes(ed25519_public_of(old(self).identity_of().private_key.unwrap()@)))
                &&& keypair_consistent(old(self).identity_of().public_key, old(self).identity_of().private_key)
                    ==> a.node_id@ == hex_of(old(self).identity_of().public_key.unwrap()@)
                &&& a.role == node_type_code(crate::types::node_type_of_name(old(self).identity_of().node_type@).unwrap())
                &&& a.capabilities@.len() == 1
                &&& a.capabilities@[0]@ == "minimal"@
                &&& a.load_factor@ == "0"@
            },
    {
        if self.state != ManagerState::Running {
            return Err(CommonwareNetworkError::NotInitialized);
        }
        let role = match NodeType::from_str_name(self.identity.node_type.as_str()) {
            Some(t) => t,
            None => {
                return Err(CommonwareNetworkError::InvalidNodeType(self.identity.node_type.clone()));
            },
        };
        let mut capabilities: Vec<String> = Vec::new();
        capabilities.push(String::from_str("minimal"));
        let announce = NodeAnnounce {
            node_id: self.self_id.clone(),
            role: role.code(),
            capabilities,
            load_factor: String::from_str("0"),
        };
        self.broadcast(NetworkMessage { message_type: Some(MessageType::NodeAnnounce(announce)) })
    }

    /// Peer count and the online and offline node counts of the topology.
    pub fn health_summary(&self) -> (r: HealthSummary)
        ensures
            r.peer_count == self.peer_seq().len(),
            r.online_nodes == crate::topology::online_of(self.topology_of().node_seq()).len(),
            r.online_nodes + r.offline_nodes == self.topology_of().node_seq().len(),
    {
        let stats = self.topology.stats();
        proof {
            self.topology.node_seq().lemma_filter_len(crate::topology::is_online());
        }
        HealthSummary {
            peer_count: self.peers.len(),
            online_nodes: stats.online_nodes,
            offline_nodes: stats.total_nodes - stats.online_nodes,
        }
    }
}

} // verus!
