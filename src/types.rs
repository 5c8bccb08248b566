//! Node roles and the node records shared across the cluster.

use vstd::prelude::*;
use vstd::string::*;
use crate::text::str_eq;

verus! {

/// The role a node plays in the cluster.
#[derive(Clone, Copy, Debug, PartialEq, Eq, Hash, Structural)]
pub enum NodeType {
    Unspecified,
    Coordinator,
    Executor,
    Referee,
    Development,
}

/// The stable wire name of each role.
pub open spec fn node_type_name(t: NodeType) -> Seq<char> {
    match t {
        NodeType::Unspecified => "NODE_TYPE_UNSPECIFIED"@,
        NodeType::Coordinator => "NODE_TYPE_COORDINATOR"@,
        NodeType::Executor => "NODE_TYPE_EXECUTOR"@,
        NodeType::Referee => "NODE_TYPE_REFEREE"@,
        NodeType::Development => "NODE_TYPE_DEVELOPMENT"@,
    }
}

/// The role whose wire name is `s`, if any.
pub open spec fn node_type_of_name(s: Seq<char>) -> Option<NodeType> {
    if s == node_type_name(NodeType::Unspecified) {
        Some(NodeType::Unspecified)
    } else if s == node_type_name(NodeType::Coordinator) {
        Some(NodeType::Coordinator)
    } else if s == node_type_name(NodeType::Executor) {
        Some(NodeType::Executor)
    } else if s == node_type_name(NodeType::Referee) {
        Some(NodeType::Referee)
    } else if s == node_type_name(NodeType::Development) {
        Some(NodeType::Development)
    } else {
        None
    }
}

impl NodeType {
    /// The wire name of this role.
    pub fn as_str_name(&self) -> (r: &'static str)
        ensures
            r@ == node_type_name(*self),
    {
        match self {
            NodeType::Unspecified => "NODE_TYPE_UNSPECIFIED",
            NodeType::Coordinator => "NODE_TYPE_COORDINATOR",
            NodeType::Executor => "NODE_TYPE_EXECUTOR",
            NodeType::Referee => "NODE_TYPE_REFEREE",
            NodeType::Development => "NODE_TYPE_DEVELOPMENT",
        }
    }

    /// The role named `value`, or `None` for an unknown name.
    pub fn from_str_name(value: &str) -> (r: Option<NodeType>)
        ensures
            r == node_type_of_name(value@),
    {
        if str_eq(value, "NODE_TYPE_UNSPECIFIED") {
            Some(NodeType::Unspecified)
        } else if str_eq(value, "NODE_TYPE_COORDINATOR") {
            Some(NodeType::Coordinator)
        } else if str_eq(value, "NODE_TYPE_EXECUTOR") {
            Some(NodeType::Executor)
        } else if str_eq(value, "NODE_TYPE_REFEREE") {
            Some(NodeType::Referee)
        } else if str_eq(value, "NODE_TYPE_DEVELOPMENT") {
            Some(NodeType::Development)
        } else {
            None
        }
    }
}

/// Reading back the wire name of a role gives the same role.
pub proof fn lemma_node_type_name_round_trip(t: NodeType)
    ensures
        node_type_of_name(node_type_name(t)) == Some(t),
{
    reveal_strlit("NODE_TYPE_UNSPECIFIED");
    reveal_strlit("NODE_TYPE_COORDINATOR");
    reveal_strlit("NODE_TYPE_EXECUTOR");
    reveal_strlit("NODE_TYPE_REFEREE");
    reveal_strlit("NODE_TYPE_DEVELOPMENT");
    assert forall|u: NodeType| u != t implies node_type_name(u) != node_type_name(t) by {
        assert(node_type_name(u)[10] != node_type_name(t)[10]);
    }
}

impl Default for NodeType {
    fn default() -> (r: NodeType)
        ensures
            r == NodeType::Unspecified,
    {
        NodeType::Unspecified
    }
}

/// The numeric wire code of a role.
pub open spec fn node_type_code(t: NodeType) -> i32 {
    match t {
        NodeType::Unspecified => 0,
        NodeType::Coordinator => 1,
        NodeType::Executor => 2,
        NodeType::Referee => 3,
        NodeType::Development => 4,
    }
}

/// The role with numeric wire code `code`, if any.
pub open spec fn node_type_of_code(code: i32) -> Option<NodeType> {
    if code == 0 {
        Some(NodeType::Unspecified)
    } else if code == 1 {
        Some(NodeType::Coordinator)
    } else if code == 2 {
        Some(NodeType::Executor)
    } else if code == 3 {
        Some(NodeType::Referee)
    } else if code == 4 {
        Some(NodeType::Development)
    } else {
        None
    }
}

impl NodeType {
    /// The numeric wire code of this role.
    pub fn code(&self) -> (r: i32)
        ensures
            r == node_type_code(*self),
    {
        match self {
            NodeType::Unspecified => 0,
            NodeType::Coordinator => 1,
            NodeType::Executor => 2,
            NodeType::Referee => 3,
            NodeType::Development => 4,
        }
    }

    /// The role with numeric wire code `code`, if any.
    pub fn from_code(code: i32) -> (r: Option<NodeType>)
        ensures
            r == node_type_of_code(code),
            r matches Some(t) ==> node_type_code(t) == code,
            r is None <==> !(0 <= code <= 4),
    {
        if code == 0 {
            Some(NodeType::Unspecified)
        } else if code == 1 {
            Some(NodeType::Coordinator)
        } else if code == 2 {
            Some(NodeType::Executor)
        } else if code == 3 {
            Some(NodeType::Referee)
        } else if code == 4 {
            Some(NodeType::Development)
        } else {
            None
        }
    }
}

/// An opaque typed payload: a type URL and the encoded value.
#[derive(Clone, Debug, PartialEq, Eq, Default)]
pub struct Any {
    pub type_url: String,
    pub value: Vec<u8>,
}

/// What a node reports about itself.
#[derive(Debug, PartialEq, Eq, Default)]
pub struct NodeInfo {
    pub node_id: String,
    pub node_type: String,
    pub online: bool,
    pub last_seen: u64,
}

impl Clone for NodeInfo {
    fn clone(&self) -> (r: NodeInfo)
        ensures
            r == *self,
    {
        NodeInfo {
            node_id: self.node_id.clone(),
            node_type: self.node_type.clone(),
            online: self.online,
            last_seen: self.last_seen,
        }
    }
}

/// One recorded link between two nodes.
#[derive(Clone, Debug, PartialEq, Eq, Default)]
pub struct Connection {
    pub from_node_id: String,
    pub to_node_id: String,
}

/// The flat form of a topology carried inside messages.
#[derive(Clone, Debug, PartialEq, Eq, Default)]
pub struct NetworkTopology {
    pub nodes: Vec<NodeInfo>,
    pub connections: Vec<Connection>,
}

/// A record reports itself online.
pub open spec fn info_online() -> spec_fn(NodeInfo) -> bool {
    |n: NodeInfo| n.online
}

/// A record's node id differs from `id`.
pub open spec fn info_id_differs(id: Seq<char>) -> spec_fn(NodeInfo) -> bool {
    |n: NodeInfo| n.node_id@ != id
}

/// A link is not the one from `from` to `to`.
pub open spec fn link_differs(from: Seq<char>, to: Seq<char>) -> spec_fn(Connection) -> bool {
    |c: Connection| !(c.from_node_id@ == from && c.to_node_id@ == to)
}

impl NetworkTopology {
    /// The node records.
    pub fn nodes(&self) -> (r: &[NodeInfo])
        ensures
            r@ == self.nodes@,
    {
        self.nodes.as_slice()
    }

    /// The links.
    pub fn connections(&self) -> (r: &[Connection])
        ensures
            r@ == self.connections@,
    {
        self.connections.as_slice()
    }

    /// The records that report themselves online, in order.
    pub fn online_nodes(&self) -> (r: Vec<&NodeInfo>)
        ensures
            r@.map_values(|x: &NodeInfo| *x) == self.nodes@.filter(info_online()),
    {
        let ghost s = self.nodes@;
        let ghost p = info_online();
        let mut out: Vec<&NodeInfo> = Vec::new();
        let mut i: usize = 0;
        while i < self.nodes.len()
            invariant
                s == self.nodes@,
                i <= s.len(),
                p == info_online(),
                out@.map_values(|x: &NodeInfo| *x) == s.subrange(0, i as int).filter(p),
            decreases s.len() - i,
        {
            let ghost before = out@;
            assert(s.subrange(0, i + 1) =~= s.subrange(0, i as int).push(s[i as int]));
            proof { s.subrange(0, i as int).lemma_filter_push(s[i as int], p); }
            if self.nodes[i].online {
                out.push(&self.nodes[i]);
                assert(out@.map_values(|x: &NodeInfo| *x) =~= before.map_values(|x: &NodeInfo| *x).push(s[i as int]));
            }
            i = i + 1;
        }
        assert(s.subrange(0, s.len() as int) =~= s);
        out
    }

    /// Append a node record.
    pub fn add_node(&mut self, node: NodeInfo)
        ensures
            final(self).nodes@ == old(self).nodes@.push(node),
            final(self).connections == old(self).connections,
    {
        self.nodes.push(node);
    }

    /// Drop every record with node id `node_id`.
    pub fn remove_node(&mut self, node_id: &str)
        ensures
            final(self).nodes@ == old(self).nodes@.filter(info_id_differs(node_id@)),
            final(self).connections == old(self).connections,
    {
        let id = String::from_str(node_id);
        let ghost p = info_id_differs(node_id@);
        let mut rest: Vec<NodeInfo> = Vec::new();
        std::mem::swap(&mut rest, &mut self.nodes);
        let ghost s = rest@;
        let _count = rest.len();
        let mut kept: Vec<NodeInfo> = Vec::new();
        let mut i: usize = 0;
        while rest.len() > 0
            invariant
                s.len() <= usize::MAX,
                i <= s.len(),
                rest@ == s.subrange(i as int, s.len() as int),
                id@ == node_id@,
                p == info_id_differs(node_id@),
                kept@ == s.subrange(0, i as int).filter(p),
                self.connections == old(self).connections,
            decreases rest@.len(),
        {
            assert(i < s.len());
            let n = rest.remove(0);
            assert(s.subrange(0, i + 1) =~= s.subrange(0, i as int).push(n));
            assert(rest@ =~= s.subrange(i + 1, s.len() as int));
            proof { s.subrange(0, i as int).lemma_filter_push(n, p); }
            if n.node_id != id {
                kept.push(n);
            }
            i = i + 1;
        }
        assert(s.subrange(0, i as int) =~= s);
        self.nodes = kept;
    }

    /// Append a link.
    pub fn add_connection(&mut self, connection: Connection)
        ensures
            final(self).connections@ == old(self).connections@.push(connection),
            final(self).nodes == old(self).nodes,
    {
        self.connections.push(connection);
    }

    /// Drop every link from `from_node` to `to_node`; the reverse link stays.
    pub fn remove_connection(&mut self, from_node: &str, to_node: &str)
        ensures
            final(self).connections@ == old(self).connections@.filter(link_differs(from_node@, to_node@)),
            final(self).nodes == old(self).nodes,
    {
        let from = String::from_str(from_node);
        let to = String::from_str(to_node);
        let ghost p = link_differs(from_node@, to_node@);
        let mut rest: Vec<Connection> = Vec::new();
        std::mem::swap(&mut rest, &mut self.connections);
        let ghost s = rest@;
        let _count = rest.len();
        let mut kept: Vec<Connection> = Vec::new();
        let mut i: usize = 0;
        while rest.len() > 0
            invariant
                s.len() <= usize::MAX,
                i <= s.len(),
                rest@ == s.subrange(i as int, s.len() as int),
                from@ == from_node@,
                to@ == to_node@,
                p == link_differs(from_node@, to_node@),
                kept@ == s.subrange(0, i as int).filter(p),
                self.nodes == old(self).nodes,
            decreases rest@.len(),
        {
            assert(i < s.len());
            let c = rest.remove(0);
            assert(s.subrange(0, i + 1) =~= s.subrange(0, i as int).push(c));
            assert(rest@ =~= s.subrange(i + 1, s.len() as int));
            proof { s.subrange(0, i as int).lemma_filter_push(c, p); }
            if !(c.from_node_id == from && c.to_node_id == to) {
                kept.push(c);
            }
            i = i + 1;
        }
        assert(s.subrange(0, i as int) =~= s);
        self.connections = kept;
    }
}

/// A task handed from one role to another.
#[derive(Clone, Debug, PartialEq, Eq, Default)]
pub struct TaskCoordination {
    pub task_id: String,
    pub from_role: i32,
    pub to_role: i32,
    pub task_type: String,
    pub payload: Option<Any>,
}

/// Insert a value under a key.
#[derive(Clone, Debug, PartialEq, Eq, Default)]
pub struct InsertOperation {
    pub key: String,
    pub value: Option<Any>,
}

/// Replace the value under a key.
#[derive(Clone, Debug, PartialEq, Eq, Default)]
pub struct UpdateOperation {
    pub key: String,
    pub value: Option<Any>,
}

/// Delete a key.
#[derive(Clone, Debug, PartialEq, Eq, Default)]
pub struct DeleteOperation {
    pub key: String,
}

/// One state change of a fractal state delta.
#[derive(Clone, Debug, PartialEq, Eq)]
pub enum Operation {
    Insert(InsertOperation),
    Update(UpdateOperation),
    Delete(DeleteOperation),
}

/// A state change, if one is set.
#[derive(Clone, Debug, PartialEq, Eq, Default)]
pub struct FractalOperation {
    pub operation: Option<Operation>,
}

/// Start the node server, optionally on a given port.
#[derive(Clone, Copy, Debug, PartialEq, Eq, Default)]
pub struct StartHo {
    pub port: Option<u32>,
}

/// Initialise a node into an output directory.
#[derive(Clone, Debug, PartialEq, Eq, Default)]
pub struct InitHo {
    pub output: String,
}

/// Query a node's health endpoint.
#[derive(Clone, Debug, PartialEq, Eq, Default)]
pub struct HealthHo {
    pub endpoint: String,
}

/// The command-line command to run.
#[derive(Clone, Debug, PartialEq, Eq)]
pub enum Command {
    Start(StartHo),
    Init(InitHo),
    Health(HealthHo),
}

/// A command, if one is set.
#[derive(Clone, Debug, PartialEq, Eq, Default)]
pub struct HoCommand {
    pub command: Option<Command>,
}

} // verus!
