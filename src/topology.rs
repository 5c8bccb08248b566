//! Topology bookkeeping: the known nodes keyed by id, the recorded links
//! between them, and the tetrahedral completeness check.

use vstd::prelude::*;
use vstd::string::*;
use crate::types::{Connection, NodeInfo, NodeType, node_type_name};
use crate::types::NetworkTopology as TopologySnapshot;

verus! {

broadcast use vstd::seq_lib::group_seq_properties;

/// No two records in `s` share a node id.
pub open spec fn ids_unique(s: Seq<NodeInfo>) -> bool {
    forall|i: int, j: int|
        0 <= i < s.len() && 0 <= j < s.len() && i != j ==> s[i].node_id@ != s[j].node_id@
}

/// Some record in `s` has node id `id`.
pub open spec fn has_id(s: Seq<NodeInfo>, id: Seq<char>) -> bool {
    exists|i: int| 0 <= i < s.len() && s[i].node_id@ == id
}

/// The records of `s` as a map from node id to record.
pub open spec fn map_of_nodes(s: Seq<NodeInfo>) -> Map<Seq<char>, NodeInfo> {
    Map::new(
        |k: Seq<char>| has_id(s, k),
        |k: Seq<char>| s[choose|i: int| 0 <= i < s.len() && s[i].node_id@ == k],
    )
}

/// An edge list links `a` and `b`, in either direction.
pub open spec fn edge_linked(e: Seq<(Seq<char>, Seq<char>)>, a: Seq<char>, b: Seq<char>) -> bool {
    exists|i: int| 0 <= i < e.len() && ((e[i].0 == a && e[i].1 == b) || (e[i].0 == b && e[i].1 == a))
}

/// The edge list after adding a link from `a` to `b`: unchanged when the
/// two are already linked in either direction.
pub open spec fn add_edge(e: Seq<(Seq<char>, Seq<char>)>, a: Seq<char>, b: Seq<char>) -> Seq<(Seq<char>, Seq<char>)> {
    if edge_linked(e, a, b) {
        e
    } else {
        e.push((a, b))
    }
}

/// A record reports itself online.
pub open spec fn is_online() -> spec_fn(NodeInfo) -> bool {
    |n: NodeInfo| n.online
}

/// A record's role name is `name`.
pub open spec fn is_of_type(name: Seq<char>) -> spec_fn(NodeInfo) -> bool {
    |n: NodeInfo| n.node_type@ == name
}

/// A link touches neither end at `id`.
pub open spec fn edge_avoids(id: Seq<char>) -> spec_fn((Seq<char>, Seq<char>)) -> bool {
    |e: (Seq<char>, Seq<char>)| e.0 != id && e.1 != id
}

/// The records that report themselves online.
pub open spec fn online_of(s: Seq<NodeInfo>) -> Seq<NodeInfo> {
    s.filter(is_online())
}

/// The records whose role name is `name`.
pub open spec fn of_type(s: Seq<NodeInfo>, name: Seq<char>) -> Seq<NodeInfo> {
    s.filter(is_of_type(name))
}

/// Some record of `s` carries role `t`.
pub open spec fn has_role(s: Seq<NodeInfo>, t: NodeType) -> bool {
    exists|i: int| 0 <= i < s.len() && s[i].node_type@ == node_type_name(t)
}

/// Exactly four online nodes, one of each working role, and at least six
/// recorded links.
pub open spec fn tetrahedron_complete(s: Seq<NodeInfo>, e: Seq<(Seq<char>, Seq<char>)>) -> bool {
    let on = online_of(s);
    &&& on.len() == 4
    &&& has_role(on, NodeType::Coordinator)
    &&& has_role(on, NodeType::Executor)
    &&& has_role(on, NodeType::Referee)
    &&& has_role(on, NodeType::Development)
    &&& e.len() >= 6
}

/// The map of a record list with unique ids holds each record under its id.
pub proof fn lemma_map_of_nodes_at(s: Seq<NodeInfo>, i: int)
    requires
        ids_unique(s),
        0 <= i < s.len(),
    ensures
        map_of_nodes(s).contains_key(s[i].node_id@),
        map_of_nodes(s)[s[i].node_id@] == s[i],
{
    let k = s[i].node_id@;
    assert(has_id(s, k));
    let j = choose|j: int| 0 <= j < s.len() && s[j].node_id@ == k;
    assert(j == i);
}

/// `counts` holds one entry per distinct role name of `s`, each with the
/// (positive) number of records of that name.
pub open spec fn counts_by_type(s: Seq<NodeInfo>, counts: Seq<(String, usize)>) -> bool {
    &&& forall|a: int, b: int|
        0 <= a < counts.len() && 0 <= b < counts.len() && a != b ==> counts[a].0@ != counts[b].0@
    &&& forall|m: int| 0 <= m < counts.len() ==> #[trigger] counts[m].1 == of_type(s, counts[m].0@).len()
    &&& forall|m: int| 0 <= m < counts.len() ==> #[trigger] counts[m].1 > 0
    &&& forall|y: NodeInfo| s.contains(y) ==> exists|m: int| 0 <= m < counts.len() && counts[m].0@ == y.node_type@
}

/// Position of the entry keyed `key`, if any.
fn key_position(counts: &Vec<(String, usize)>, key: &String) -> (r: Option<usize>)
    ensures
        r matches Some(j) ==> j < counts@.len() && counts@[j as int].0@ == key@,
        r is None ==> forall|m: int| 0 <= m < counts@.len() ==> counts@[m].0@ != key@,
{
    let mut j: usize = 0;
    while j < counts.len()
        invariant
            j <= counts@.len(),
            forall|m: int| 0 <= m < j ==> counts@[m].0@ != key@,
        decreases counts@.len() - j,
    {
        if counts[j].0 == *key {
            return Some(j);
        }
        j = j + 1;
    }
    None
}

/// Whether some record of `v` carries role `t`.
fn role_present(v: &Vec<&NodeInfo>, t: NodeType) -> (r: bool)
    ensures
        r == has_role(v@.map_values(|x: &NodeInfo| *x), t),
{
    let name = t.as_str_name().to_owned();
    let ghost s = v@.map_values(|x: &NodeInfo| *x);
    let mut i: usize = 0;
    while i < v.len()
        invariant
            s == v@.map_values(|x: &NodeInfo| *x),
            name@ == node_type_name(t),
            i <= s.len(),
            forall|j: int| 0 <= j < i ==> s[j].node_type@ != node_type_name(t),
        decreases s.len() - i,
    {
        if v[i].node_type == name {
            assert(s[i as int].node_type@ == node_type_name(t));
            return true;
        }
        i = i + 1;
    }
    false
}

/// Statistics about the network topology.
#[derive(Debug)]
pub struct TopologyStats {
    pub total_nodes: usize,
    pub online_nodes: usize,
    pub total_connections: usize,
    pub is_complete: bool,
    pub nodes_by_type: Vec<(String, usize)>,
}

/// The view of a link list.
pub open spec fn edge_views(c: Seq<(String, String)>) -> Seq<(Seq<char>, Seq<char>)> {
    c.map_values(|x: (String, String)| (x.0@, x.1@))
}

/// An edge survives the filter for `id` exactly when it was there and
/// touches neither end at `id`.
pub proof fn lemma_edges_avoiding(e0: Seq<(Seq<char>, Seq<char>)>, id: Seq<char>)
    ensures
        forall|e: (Seq<char>, Seq<char>)| #[trigger] e0.filter(edge_avoids(id)).contains(e) <==> (
            e0.contains(e) && e.0 != id && e.1 != id),
{
    let p = edge_avoids(id);
    let f = e0.filter(p);
    assert forall|e: (Seq<char>, Seq<char>)| #[trigger] f.contains(e) <==> (e0.contains(e) && e.0 != id && e.1 != id) by {
        if f.contains(e) {
            e0.lemma_filter_contains_rev(p, e);
            let i = choose|i: int| 0 <= i < f.len() && f[i] == e;
            e0.lemma_filter_pred(p, i);
        }
        if e0.contains(e) && e.0 != id && e.1 != id {
            let i = choose|i: int| 0 <= i < e0.len() && e0[i] == e;
            e0.lemma_filter_contains(p, i);
        }
    }
}

/// A link touches no end in `ids`.
pub open spec fn edge_avoids_all(ids: Set<Seq<char>>) -> spec_fn((Seq<char>, Seq<char>)) -> bool {
    |e: (Seq<char>, Seq<char>)| !ids.contains(e.0) && !ids.contains(e.1)
}

/// Both predicates hold.
pub open spec fn both_hold(
    p: spec_fn((Seq<char>, Seq<char>)) -> bool,
    q: spec_fn((Seq<char>, Seq<char>)) -> bool,
) -> spec_fn((Seq<char>, Seq<char>)) -> bool {
    |e: (Seq<char>, Seq<char>)| p(e) && q(e)
}

/// A filter that every element passes keeps the sequence.
pub proof fn lemma_filter_all_kept(s: Seq<(Seq<char>, Seq<char>)>, p: spec_fn((Seq<char>, Seq<char>)) -> bool)
    requires
        forall|i: int| 0 <= i < s.len() ==> p(#[trigger] s[i]),
    ensures
        s.filter(p) == s,
    decreases s.len(),
{
    if s.len() == 0 {
        s.lemma_filter_len(p);
        assert(s.filter(p) =~= s);
    } else {
        let t = s.drop_last();
        assert forall|i: int| 0 <= i < t.len() implies p(#[trigger] t[i]) by {
            assert(t[i] == s[i]);
        }
        lemma_filter_all_kept(t, p);
        assert(s =~= t.push(s.last()));
        t.lemma_filter_push(s.last(), p);
    }
}

/// Filtering twice is filtering once by both predicates.
pub proof fn lemma_filter_twice(
    s: Seq<(Seq<char>, Seq<char>)>,
    p: spec_fn((Seq<char>, Seq<char>)) -> bool,
    q: spec_fn((Seq<char>, Seq<char>)) -> bool,
)
    ensures
        s.filter(p).filter(q) == s.filter(both_hold(p, q)),
    decreases s.len(),
{
    if s.len() == 0 {
        s.lemma_filter_len(p);
        s.filter(p).lemma_filter_len(q);
        s.lemma_filter_len(both_hold(p, q));
        assert(s.filter(p).filter(q) =~= s.filter(both_hold(p, q)));
    } else {
        let t = s.drop_last();
        let x = s.last();
        lemma_filter_twice(t, p, q);
        assert(s =~= t.push(x));
        t.lemma_filter_push(x, p);
        t.lemma_filter_push(x, both_hold(p, q));
        if p(x) {
            t.filter(p).lemma_filter_push(x, q);
        }
    }
}

/// The links of `conns` that touch neither end at `node_id`, in order.
fn links_avoiding(conns: &Vec<(String, String)>, node_id: &str) -> (links: Vec<(String, String)>)
    ensures
        edge_views(links@) == edge_views(conns@).filter(edge_avoids(node_id@)),
{
    let id = String::from_str(node_id);
    let ghost e0 = edge_views(conns@);
    let ghost p = edge_avoids(node_id@);
    let mut links: Vec<(String, String)> = Vec::new();
    let mut c: usize = 0;
    while c < conns.len()
        invariant
            e0 == edge_views(conns@),
            p == edge_avoids(node_id@),
            c <= e0.len(),
            id@ == node_id@,
            edge_views(links@) == e0.subrange(0, c as int).filter(p),
        decreases e0.len() - c,
    {
        let a = conns[c].0.clone();
        let b = conns[c].1.clone();
        assert(e0[c as int] == (a@, b@));
        assert(e0.subrange(0, c + 1) =~= e0.subrange(0, c as int).push(e0[c as int]));
        proof { e0.subrange(0, c as int).lemma_filter_push(e0[c as int], p); }
        if a != id && b != id {
            let ghost lb = links@;
            links.push((a, b));
            assert(edge_views(links@) =~= edge_views(lb).push(e0[c as int]));
        }
        c = c + 1;
    }
    assert(e0.subrange(0, e0.len() as int) =~= e0);
    links
}

/// Simplified tetrahedral network topology.
#[derive(Debug)]
pub struct NetworkTopology {
    nodes: Vec<NodeInfo>,
    connections: Vec<(String, String)>,
}

impl NetworkTopology {
    /// The node records, in the order they were first added.
    pub closed spec fn node_seq(&self) -> Seq<NodeInfo> {
        self.nodes@
    }

    /// The recorded links, in the order they were added.
    pub closed spec fn edges(&self) -> Seq<(Seq<char>, Seq<char>)> {
        self.connections@.map_values(|c: (String, String)| (c.0@, c.1@))
    }

    /// Node ids are unique.
    pub open spec fn wf(&self) -> bool {
        ids_unique(self.node_seq())
    }

    /// The nodes keyed by id.
    pub open spec fn node_map(&self) -> Map<Seq<char>, NodeInfo> {
        map_of_nodes(self.node_seq())
    }

    /// `a` and `b` are linked in either direction.
    pub open spec fn linked(&self, a: Seq<char>, b: Seq<char>) -> bool {
        edge_linked(self.edges(), a, b)
    }

    /// Create a new empty topology.
    pub fn new() -> (r: NetworkTopology)
        ensures
            r.wf(),
            r.node_seq() == Seq::<NodeInfo>::empty(),
            r.edges() == Seq::<(Seq<char>, Seq<char>)>::empty(),
    {
        let r = NetworkTopology { nodes: Vec::new(), connections: Vec::new() };
        assert(r.edges() =~= Seq::<(Seq<char>, Seq<char>)>::empty());
        r
    }

    /// The node records.
    pub fn nodes(&self) -> (r: &Vec<NodeInfo>)
        ensures
            r@ == self.node_seq(),
    {
        &self.nodes
    }

    /// The recorded links.
    pub fn connections(&self) -> (r: &Vec<(String, String)>)
        ensures
            r@.map_values(|c: (String, String)| (c.0@, c.1@)) == self.edges(),
    {
        &self.connections
    }

    /// Position of the record with id `id`, if any.
    fn position_of(&self, id: &String) -> (r: Option<usize>)
        requires
            self.wf(),
        ensures
            r matches Some(i) ==> i < self.node_seq().len() && self.node_seq()[i as int].node_id@ == id@,
            r is None <==> !has_id(self.node_seq(), id@),
    {
        let mut i: usize = 0;
        while i < self.nodes.len()
            invariant
                i <= self.nodes@.len(),
                forall|j: int| 0 <= j < i ==> self.nodes@[j].node_id@ != id@,
            decreases self.nodes@.len() - i,
        {
            if self.nodes[i].node_id == *id {
                return Some(i);
            }
            i = i + 1;
        }
        None
    }

    /// Add a node, replacing the record that has the same id.
    pub fn add_node(&mut self, info: NodeInfo)
        requires
            old(self).wf(),
        ensures
            final(self).wf(),
            final(self).node_map() == old(self).node_map().insert(info.node_id@, info),
            final(self).edges() == old(self).edges(),
            has_id(old(self).node_seq(), info.node_id@) ==> final(self).node_seq().len() == old(self).node_seq().len(),
            !has_id(old(self).node_seq(), info.node_id@) ==> final(self).node_seq() == old(self).node_seq().push(info),
    {
        let ghost s0 = self.nodes@;
        let ghost id = info.node_id@;
        match self.position_of(&info.node_id) {
            Some(i) => {
                self.nodes.set(i, info);
                let ghost s1 = self.nodes@;
                assert(ids_unique(s1));
                assert forall|k: Seq<char>| #[trigger] map_of_nodes(s1).contains_key(k) == map_of_nodes(s0).insert(id, info).contains_key(k) by {
                    if has_id(s0, k) {
                        let j = choose|j: int| 0 <= j < s0.len() && s0[j].node_id@ == k;
                        if j != i as int {
                            assert(s1[j].node_id@ == k);
                        }
                    }
                    if has_id(s1, k) {
                        let j = choose|j: int| 0 <= j < s1.len() && s1[j].node_id@ == k;
                        if j != i as int {
                            assert(s0[j].node_id@ == k);
                        }
                    }
                    if k == id {
                        assert(s1[i as int].node_id@ == k);
                    }
                }
                assert forall|k: Seq<char>| #[trigger] map_of_nodes(s1).contains_key(k) implies map_of_nodes(s1)[k] == map_of_nodes(s0).insert(id, info)[k] by {
                    let j = choose|j: int| 0 <= j < s1.len() && s1[j].node_id@ == k;
                    lemma_map_of_nodes_at(s1, j);
                    if j != i as int {
                        lemma_map_of_nodes_at(s0, j);
                    }
                }
                assert(map_of_nodes(s1) =~= map_of_nodes(s0).insert(id, info));
            },
            None => {
                self.nodes.push(info);
                let ghost s1 = self.nodes@;
                assert(ids_unique(s1));
                assert forall|k: Seq<char>| #[trigger] map_of_nodes(s1).contains_key(k) == map_of_nodes(s0).insert(id, info).contains_key(k) by {
                    if has_id(s0, k) {
                        let j = choose|j: int| 0 <= j < s0.len() && s0[j].node_id@ == k;
                        assert(s1[j].node_id@ == k);
                    }
                    if has_id(s1, k) {
                        let j = choose|j: int| 0 <= j < s1.len() && s1[j].node_id@ == k;
                        if j != s0.len() {
                            assert(s0[j].node_id@ == k);
                        }
                    }
                    if k == id {
                        assert(s1[s0.len() as int].node_id@ == k);
                    }
                }
                assert forall|k: Seq<char>| #[trigger] map_of_nodes(s1).contains_key(k) implies map_of_nodes(s1)[k] == map_of_nodes(s0).insert(id, info)[k] by {
                    let j = choose|j: int| 0 <= j < s1.len() && s1[j].node_id@ == k;
                    lemma_map_of_nodes_at(s1, j);
                    if j != s0.len() {
                        lemma_map_of_nodes_at(s0, j);
                    }
                }
                assert(map_of_nodes(s1) =~= map_of_nodes(s0).insert(id, info));
            },
        }
    }

    /// Remove a node and every link that touches it.
    pub fn remove_node(&mut self, node_id: &str)
        requires
            old(self).wf(),
        ensures
            final(self).wf(),
            final(self).node_map() == old(self).node_map().remove(node_id@),
            final(self).edges() == old(self).edges().filter(edge_avoids(node_id@)),
            forall|e: (Seq<char>, Seq<char>)| #[trigger] final(self).edges().contains(e) <==> (
                old(self).edges().contains(e) && e.0 != node_id@ && e.1 != node_id@),
    {
        let id = node_id.to_owned();
        let ghost s0 = self.nodes@;
        let mut kept: Vec<NodeInfo> = Vec::new();
        let mut i: usize = 0;
        while i < self.nodes.len()
            invariant
                self.nodes@ == s0,
                ids_unique(s0),
                i <= s0.len(),
                ids_unique(kept@),
                forall|j: int| #![trigger kept@[j]] 0 <= j < kept@.len() ==> kept@[j].node_id@ != id@
                    && exists|m: int| 0 <= m < i && s0[m] == kept@[j],
                forall|m: int| #![trigger s0[m]] 0 <= m < i && s0[m].node_id@ != id@
                    ==> exists|j: int| 0 <= j < kept@.len() && kept@[j] == s0[m],
            decreases s0.len() - i,
        {
            if self.nodes[i].node_id != id {
                let ghost before = kept@;
                let n = self.nodes[i].clone();
                kept.push(n);
                assert(kept@[before.len() as int] == s0[i as int]);
                assert forall|j: int| 0 <= j < before.len() implies kept@[j].node_id@ != s0[i as int].node_id@ by {
                    assert(kept@[j] == before[j]);
                    let m = choose|m: int| 0 <= m < i && s0[m] == before[j];
                    assert(m != i as int);
                }
                assert forall|j: int| #![trigger kept@[j]] 0 <= j < kept@.len() implies kept@[j].node_id@ != id@
                    && exists|m: int| 0 <= m < i + 1 && s0[m] == kept@[j] by {
                    if j < before.len() {
                        assert(kept@[j] == before[j]);
                        let m = choose|m: int| 0 <= m < i && s0[m] == before[j];
                        assert(kept@[j] == before[j]);
                    }
                }
                assert forall|m: int| #![trigger s0[m]] 0 <= m < i + 1 && s0[m].node_id@ != id@
                    implies exists|j: int| 0 <= j < kept@.len() && kept@[j] == s0[m] by {
                    if m < i {
                        let j = choose|j: int| 0 <= j < before.len() && before[j] == s0[m];
                        assert(kept@[j] == s0[m]);
                    } else {
                        assert(kept@[before.len() as int] == s0[m]);
                    }
                }
            } else {
                assert forall|j: int| #![trigger kept@[j]] 0 <= j < kept@.len() implies kept@[j].node_id@ != id@
                    && exists|m: int| 0 <= m < i + 1 && s0[m] == kept@[j] by {
                    let m = choose|m: int| 0 <= m < i && s0[m] == kept@[j];
                }
            }
            i = i + 1;
        }
        let ghost s1 = kept@;
        assert forall|k: Seq<char>| #[trigger] map_of_nodes(s1).contains_key(k) == map_of_nodes(s0).remove(id@).contains_key(k) by {
            if has_id(s0, k) && k != id@ {
                let m = choose|m: int| 0 <= m < s0.len() && s0[m].node_id@ == k;
                assert(s0[m].node_id@ != id@);
                let j = choose|j: int| 0 <= j < s1.len() && s1[j] == s0[m];
                assert(s1[j].node_id@ == k);
            }
            if has_id(s1, k) {
                let j = choose|j: int| 0 <= j < s1.len() && s1[j].node_id@ == k;
                assert(s1[j].node_id@ != id@);
                let m = choose|m: int| 0 <= m < s0.len() && s0[m] == s1[j];
                assert(s0[m].node_id@ == k);
            }
        }
        assert forall|k: Seq<char>| #[trigger] map_of_nodes(s1).contains_key(k) implies map_of_nodes(s1)[k] == map_of_nodes(s0).remove(id@)[k] by {
            let j = choose|j: int| 0 <= j < s1.len() && s1[j].node_id@ == k;
            lemma_map_of_nodes_at(s1, j);
            assert(s1[j].node_id@ != id@);
            let m = choose|m: int| 0 <= m < s0.len() && s0[m] == s1[j];
            lemma_map_of_nodes_at(s0, m);
        }
        assert(map_of_nodes(s1) =~= map_of_nodes(s0).remove(id@));
        self.nodes = kept;

        let ghost e0 = self.edges();
        self.connections = links_avoiding(&self.connections, node_id);
        assert(self.edges() == edge_views(self.connections@));
        proof { lemma_edges_avoiding(e0, node_id@); }
    }

    /// Whether `from` and `to` are linked, in either direction.
    pub fn has_connection(&self, from: &str, to: &str) -> (r: bool)
        ensures
            r == self.linked(from@, to@),
    {
        let a = from.to_owned();
        let b = to.to_owned();
        assert(a@ == from@ && b@ == to@);
        let ghost e = self.edges();
        let mut i: usize = 0;
        while i < self.connections.len()
            invariant
                e == self.connections@.map_values(|x: (String, String)| (x.0@, x.1@)),
                a@ == from@,
                b@ == to@,
                i <= e.len(),
                forall|j: int| 0 <= j < i ==> !((e[j].0 == a@ && e[j].1 == b@) || (e[j].0 == b@ && e[j].1 == a@)),
            decreases e.len() - i,
        {
            let c = &self.connections[i];
            assert(e[i as int] == (c.0@, c.1@));
            let fwd = c.0 == a && c.1 == b;
            let bwd = c.0 == b && c.1 == a;
            if fwd || bwd {
                assert(edge_linked(e, from@, to@));
                return true;
            }
            i = i + 1;
        }
        false
    }

    /// Add a link from `from` to `to`, unless the two are already linked in
    /// either direction.
    pub fn add_connection(&mut self, from: String, to: String)
        requires
            old(self).wf(),
        ensures
            final(self).wf(),
            final(self).node_seq() == old(self).node_seq(),
            final(self).edges() == add_edge(old(self).edges(), from@, to@),
    {
        if !self.has_connection(from.as_str(), to.as_str()) {
            let ghost e0 = self.edges();
            let ghost pair = (from@, to@);
            self.connections.push((from, to));
            assert(self.edges() =~= e0.push(pair));
        }
    }

    /// The nodes whose role is `node_type`, in insertion order.
    pub fn nodes_by_type(&self, node_type: NodeType) -> (r: Vec<&NodeInfo>)
        ensures
            r@.map_values(|x: &NodeInfo| *x) == of_type(self.node_seq(), node_type_name(node_type)),
    {
        let name = node_type.as_str_name().to_owned();
        let ghost s = self.nodes@;
        let ghost nm = node_type_name(node_type);
        let ghost p = is_of_type(nm);
        let mut out: Vec<&NodeInfo> = Vec::new();
        let mut i: usize = 0;
        while i < self.nodes.len()
            invariant
                s == self.nodes@,
                i <= s.len(),
                name@ == nm,
                nm == node_type_name(node_type),
                p == is_of_type(nm),
                out@.map_values(|x: &NodeInfo| *x) == s.subrange(0, i as int).filter(p),
            decreases s.len() - i,
        {
            let ghost before = out@;
            assert(s.subrange(0, i + 1) =~= s.subrange(0, i as int).push(s[i as int]));
            proof { s.subrange(0, i as int).lemma_filter_push(s[i as int], p); }
            if self.nodes[i].node_type == name {
                out.push(&self.nodes[i]);
                assert(out@.map_values(|x: &NodeInfo| *x) =~= before.map_values(|x: &NodeInfo| *x).push(s[i as int]));
            }
            i = i + 1;
        }
        assert(s.subrange(0, s.len() as int) =~= s);
        out
    }

    /// The nodes that report themselves online, in insertion order.
    pub fn online_nodes(&self) -> (r: Vec<&NodeInfo>)
        ensures
            r@.map_values(|x: &NodeInfo| *x) == online_of(self.node_seq()),
    {
        let ghost s = self.nodes@;
        let ghost p = is_online();
        let mut out: Vec<&NodeInfo> = Vec::new();
        let mut i: usize = 0;
        while i < self.nodes.len()
            invariant
                s == self.nodes@,
                i <= s.len(),
                p == is_online(),
                out@.map_values(|x: &NodeInfo| *x) == s.subrange(0, i as int).filter(p),
            decreases s.len() - i,
        {
            let ghost before = out@;
            assert(s.subrange(0, i + 1) =~= s.subrange(0, i as int).push(s[i as int]));
            proof { s.subrange(0, i as int).lemma_filter_push(s[i as int], p); }
            if self.nodes[i].online {
                out.push(&self.nodes[i]);
                assert(out@.map_values(|x: &NodeInfo| *x) =~= before.map_values(|x: &NodeInfo| *x).push(s[i as int]));
            }
            i = i + 1;
        }
        assert(s.subrange(0, s.len() as int) =~= s);
        out
    }

    /// Whether the online nodes are exactly one of each of the four working
    /// roles and at least six links are recorded.
    pub fn is_complete_tetrahedron(&self) -> (r: bool)
        ensures
            r == tetrahedron_complete(self.node_seq(), self.edges()),
    {
        let online = self.online_nodes();
        if online.len() != 4 {
            return false;
        }
        let has_coordinator = role_present(&online, NodeType::Coordinator);
        let has_executor = role_present(&online, NodeType::Executor);
        let has_referee = role_present(&online, NodeType::Referee);
        let has_development = role_present(&online, NodeType::Development);
        if !(has_coordinator && has_executor && has_referee && has_development) {
            return false;
        }
        let expected_connections: usize = 6;
        self.connections.len() >= expected_connections
    }

    /// The first online node of role `node_type`, in insertion order.
    pub fn nearest_node_of_type(&self, node_type: NodeType) -> (r: Option<&NodeInfo>)
        ensures
            ({
                let c = of_type(self.node_seq(), node_type_name(node_type));
                match r {
                    Some(x) => exists|i: int| 0 <= i < c.len() && c[i] == *x && x.online
                        && forall|j: int| 0 <= j < i ==> !(#[trigger] c[j]).online,
                    None => forall|i: int| 0 <= i < c.len() ==> !(#[trigger] c[i]).online,
                }
            }),
    {
        let candidates = self.nodes_by_type(node_type);
        let ghost c = candidates@.map_values(|x: &NodeInfo| *x);
        let mut i: usize = 0;
        while i < candidates.len()
            invariant
                c == candidates@.map_values(|x: &NodeInfo| *x),
                c == of_type(self.node_seq(), node_type_name(node_type)),
                i <= c.len(),
                forall|j: int| 0 <= j < i ==> !(#[trigger] c[j]).online,
            decreases c.len() - i,
        {
            if candidates[i].online {
                assert(c[i as int] == *candidates@[i as int]);
                return Some(candidates[i]);
            }
            i = i + 1;
        }
        None
    }

    /// How many nodes carry each role name: one entry per distinct name.
    fn count_nodes_by_type(&self) -> (r: Vec<(String, usize)>)
        ensures
            counts_by_type(self.node_seq(), r@),
    {
        let ghost s = self.nodes@;
        let mut counts: Vec<(String, usize)> = Vec::new();
        let mut i: usize = 0;
        while i < self.nodes.len()
            invariant
                s == self.nodes@,
                i <= s.len(),
                counts_by_type(s.subrange(0, i as int), counts@),
            decreases s.len() - i,
        {
            let ghost p = s.subrange(0, i as int);
            let ghost x = s[i as int];
            assert(s.subrange(0, i + 1) =~= p.push(x));
            assert forall|k: Seq<char>| #[trigger] of_type(p.push(x), k).len()
                == of_type(p, k).len() + (if x.node_type@ == k { 1int } else { 0int }) by {
                p.lemma_filter_push(x, is_of_type(k));
            }
            let ty = &self.nodes[i].node_type;
            let pos = key_position(&counts, ty);
            let found = pos.is_some();
            let j: usize = match pos {
                Some(j) => j,
                None => 0,
            };
            if found {
                let ghost before = counts@;
                proof {
                    p.lemma_filter_len(is_of_type(x.node_type@));
                }
                let n = counts[j].1 + 1;
                let key = counts[j].0.clone();
                counts.set(j, (key, n));
                assert forall|m: int| 0 <= m < counts@.len() implies #[trigger] counts@[m].1 == of_type(p.push(x), counts@[m].0@).len() by {
                    if m != j as int {
                        assert(counts@[m] == before[m]);
                    }
                }
                assert forall|y: NodeInfo| p.push(x).contains(y) implies exists|m: int| 0 <= m < counts@.len() && counts@[m].0@ == y.node_type@ by {
                    if y != x {
                        assert(p.contains(y));
                        let m = choose|m: int| 0 <= m < before.len() && before[m].0@ == y.node_type@;
                        assert(counts@[m].0@ == before[m].0@);
                    } else {
                        assert(counts@[j as int].0@ == y.node_type@);
                    }
                }
                assert forall|a: int, b: int| 0 <= a < counts@.len() && 0 <= b < counts@.len() && a != b implies counts@[a].0@ != counts@[b].0@ by {
                    assert(counts@[a].0@ == before[a].0@);
                    assert(counts@[b].0@ == before[b].0@);
                }
            } else {
                let ghost before = counts@;
                counts.push((ty.clone(), 1));
                assert forall|m: int| 0 <= m < counts@.len() implies #[trigger] counts@[m].1 == of_type(p.push(x), counts@[m].0@).len() by {
                    if m < before.len() {
                        assert(counts@[m] == before[m]);
                    } else {
                        assert(of_type(p, x.node_type@).len() == 0) by {
                            if of_type(p, x.node_type@).len() != 0 {
                                let q = of_type(p, x.node_type@);
                                p.lemma_filter_pred(is_of_type(x.node_type@), 0);
                                assert(q.contains(q[0]));
                                p.lemma_filter_contains_rev(is_of_type(x.node_type@), q[0]);
                                let m = choose|m: int| 0 <= m < before.len() && before[m].0@ == q[0].node_type@;
                            }
                        }
                    }
                }
                assert forall|y: NodeInfo| p.push(x).contains(y) implies exists|m: int| 0 <= m < counts@.len() && counts@[m].0@ == y.node_type@ by {
                    if y != x {
                        assert(p.contains(y));
                        let m = choose|m: int| 0 <= m < before.len() && before[m].0@ == y.node_type@;
                        assert(counts@[m] == before[m]);
                    } else {
                        assert(counts@[before.len() as int].0@ == y.node_type@);
                    }
                }
            }
            i = i + 1;
        }
        assert(s.subrange(0, s.len() as int) =~= s);
        counts
    }

    /// Aggregate counts for health reporting.
    pub fn stats(&self) -> (r: TopologyStats)
        ensures
            r.total_nodes == self.node_seq().len(),
            r.online_nodes == online_of(self.node_seq()).len(),
            r.total_connections == self.edges().len(),
            r.is_complete == tetrahedron_complete(self.node_seq(), self.edges()),
            counts_by_type(self.node_seq(), r.nodes_by_type@),
    {
        let online = self.online_nodes();
        TopologyStats {
            total_nodes: self.nodes.len(),
            online_nodes: online.len(),
            total_connections: self.connections.len(),
            is_complete: self.is_complete_tetrahedron(),
            nodes_by_type: self.count_nodes_by_type(),
        }
    }

    /// A copy in the flat form that messages carry.
    pub fn snapshot(&self) -> (r: TopologySnapshot)
        ensures
            r.nodes@ == self.node_seq(),
            r.connections@.map_values(|c: Connection| (c.from_node_id@, c.to_node_id@)) == self.edges(),
    {
        let mut nodes: Vec<NodeInfo> = Vec::new();
        let mut i: usize = 0;
        while i < self.nodes.len()
            invariant
                i <= self.nodes@.len(),
                nodes@ == self.nodes@.subrange(0, i as int),
            decreases self.nodes@.len() - i,
        {
            nodes.push(self.nodes[i].clone());
            assert(self.nodes@.subrange(0, i + 1) =~= self.nodes@.subrange(0, i as int).push(self.nodes@[i as int]));
            i = i + 1;
        }
        assert(self.nodes@.subrange(0, self.nodes@.len() as int) =~= self.nodes@);
        let ghost e = self.edges();
        let mut connections: Vec<Connection> = Vec::new();
        let mut j: usize = 0;
        while j < self.connections.len()
            invariant
                e == self.connections@.map_values(|c: (String, String)| (c.0@, c.1@)),
                j <= e.len(),
                connections@.map_values(|c: Connection| (c.from_node_id@, c.to_node_id@)) == e.subrange(0, j as int),
            decreases e.len() - j,
        {
            let ghost before = connections@;
            let c = &self.connections[j];
            connections.push(Connection { from_node_id: c.0.clone(), to_node_id: c.1.clone() });
            assert(connections@.map_values(|c: Connection| (c.from_node_id@, c.to_node_id@))
                =~= before.map_values(|c: Connection| (c.from_node_id@, c.to_node_id@)).push(e[j as int]));
            assert(e.subrange(0, j + 1) =~= e.subrange(0, j as int).push(e[j as int]));
            j = j + 1;
        }
        assert(e.subrange(0, e.len() as int) =~= e);
        TopologySnapshot { nodes, connections }
    }
}

impl Default for NetworkTopology {
    fn default() -> (r: NetworkTopology)
        ensures
            r.wf(),
            r.node_seq() == Seq::<NodeInfo>::empty(),
            r.edges() == Seq::<(Seq<char>, Seq<char>)>::empty(),
    {
        NetworkTopology::new()
    }
}

/// Adding the same link twice leaves one edge for it: the second call
/// changes nothing, and links are found in either direction.
pub proof fn lemma_add_connection_idempotent(e: Seq<(Seq<char>, Seq<char>)>, a: Seq<char>, b: Seq<char>)
    ensures
        add_edge(add_edge(e, a, b), a, b) == add_edge(e, a, b),
        !edge_linked(e, a, b) ==> add_edge(add_edge(e, a, b), a, b) == e.push((a, b)),
        edge_linked(add_edge(e, a, b), a, b),
        edge_linked(e, a, b) == edge_linked(e, b, a),
{
    if !edge_linked(e, a, b) {
        let f = e.push((a, b));
        assert(f[e.len() as int] == (a, b));
        assert(edge_linked(f, a, b));
    }
    if edge_linked(e, a, b) {
        let i = choose|i: int| 0 <= i < e.len() && ((e[i].0 == a && e[i].1 == b) || (e[i].0 == b && e[i].1 == a));
        assert(edge_linked(e, b, a));
    }
    if edge_linked(e, b, a) {
        let i = choose|i: int| 0 <= i < e.len() && ((e[i].0 == b && e[i].1 == a) || (e[i].0 == a && e[i].1 == b));
        assert(edge_linked(e, a, b));
    }
}

/// Completeness needs both conditions: fewer than four online nodes, a
/// missing role, or fewer than six links each rule it out, and together
/// the role and link conditions give it.
pub proof fn lemma_tetrahedron_needs_both(s: Seq<NodeInfo>, e: Seq<(Seq<char>, Seq<char>)>)
    ensures
        online_of(s).len() < 4 ==> !tetrahedron_complete(s, e),
        (online_of(s).len() == 4 && !(has_role(online_of(s), NodeType::Coordinator)
            && has_role(online_of(s), NodeType::Executor)
            && has_role(online_of(s), NodeType::Referee)
            && has_role(online_of(s), NodeType::Development))) ==> !tetrahedron_complete(s, e),
        e.len() < 6 ==> !tetrahedron_complete(s, e),
        tetrahedron_complete(s, e) <==> (
            online_of(s).len() == 4
            && has_role(online_of(s), NodeType::Coordinator)
            && has_role(online_of(s), NodeType::Executor)
            && has_role(online_of(s), NodeType::Referee)
            && has_role(online_of(s), NodeType::Development)
            && e.len() >= 6),
{
}

} // verus!
