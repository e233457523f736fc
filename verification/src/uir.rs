//! UIR graphs: typed nodes and edges with identifiers, their canonical
//! order and their structural invariants.
use vstd::prelude::*;

use crate::canon_jcs::{
    float_free, key_order, lemma_float_free_list, lemma_float_free_members, lemma_key_order, order_view,
    stable_key_order, strings_view,
};
use crate::errors::CoreError;
use crate::json::{fields_push, items_push, json_str, lemma_view_fields, view_fields, view_items, Json, JsonValue};
use crate::order::{is_permutation, lemma_key_order_sorts, sorted_by_key, stable_by_key};
use crate::text::{push_str, str_eq, string_of};

verus! {

#[derive(Debug, Clone, Copy, PartialEq, Eq, Structural)]
pub enum NodeType {
    Symbol,
    Func,
    Class,
    Module,
    Literal,
    Type,
    Block,
    Unknown,
}

#[derive(Debug, Clone, Copy, PartialEq, Eq, Structural)]
pub enum EdgeType {
    Contains,
    Calls,
    Reads,
    Writes,
    Defines,
    Imports,
    DependsOn,
    FlowsTo,
    Unknown,
}

/// A node: identifier, type and properties (a JSON member list).
#[derive(Debug, PartialEq)]
pub struct UirNode {
    pub id: String,
    pub node_type: NodeType,
    pub props: Vec<(String, JsonValue)>,
}

/// An edge between two node identifiers.
#[derive(Debug, PartialEq)]
pub struct UirEdge {
    pub id: String,
    pub edge_type: EdgeType,
    pub src: String,
    pub dst: String,
    pub props: Vec<(String, JsonValue)>,
}

/// A UIR graph.
#[derive(Debug, PartialEq)]
pub struct UirGraph {
    pub uir_version: String,
    pub nodes: Vec<UirNode>,
    pub edges: Vec<UirEdge>,
}

pub struct NodeView {
    pub id: Seq<char>,
    pub node_type: NodeType,
    pub props: Seq<(Seq<char>, Json)>,
}

pub struct EdgeView {
    pub id: Seq<char>,
    pub edge_type: EdgeType,
    pub src: Seq<char>,
    pub dst: Seq<char>,
    pub props: Seq<(Seq<char>, Json)>,
}

pub struct GraphView {
    pub uir_version: Seq<char>,
    pub nodes: Seq<NodeView>,
    pub edges: Seq<EdgeView>,
}

impl View for UirNode {
    type V = NodeView;

    open spec fn view(&self) -> NodeView {
        NodeView { id: self.id@, node_type: self.node_type, props: view_fields(self.props@) }
    }
}

impl View for UirEdge {
    type V = EdgeView;

    open spec fn view(&self) -> EdgeView {
        EdgeView {
            id: self.id@,
            edge_type: self.edge_type,
            src: self.src@,
            dst: self.dst@,
            props: view_fields(self.props@),
        }
    }
}

impl View for UirGraph {
    type V = GraphView;

    open spec fn view(&self) -> GraphView {
        GraphView {
            uir_version: self.uir_version@,
            nodes: self.nodes@.map_values(|n: UirNode| n@),
            edges: self.edges@.map_values(|e: UirEdge| e@),
        }
    }
}

/// A copy of a member list.
pub fn copy_fields(fs: &Vec<(String, JsonValue)>) -> (r: Vec<(String, JsonValue)>)
    ensures
        view_fields(r@) == view_fields(fs@),
{
    let mut out: Vec<(String, JsonValue)> = Vec::new();
    let mut i: usize = 0;
    while i < fs.len()
        invariant
            i <= fs@.len(),
            out@.len() == i,
            forall|j: int|
                0 <= j < i ==> #[trigger] out@[j].0@ == fs@[j].0@ && out@[j].1@ == fs@[j].1@,
        decreases fs@.len() - i,
    {
        out.push((fs[i].0.clone(), fs[i].1.deep_clone()));
        i = i + 1;
    }
    proof {
        lemma_view_fields(out@);
        lemma_view_fields(fs@);
    }
    assert(view_fields(out@) =~= view_fields(fs@));
    out
}

impl UirNode {
    pub fn copy(&self) -> (r: UirNode)
        ensures
            r@ == self@,
    {
        UirNode { id: self.id.clone(), node_type: self.node_type, props: copy_fields(&self.props) }
    }
}

impl UirEdge {
    pub fn copy(&self) -> (r: UirEdge)
        ensures
            r@ == self@,
    {
        UirEdge {
            id: self.id.clone(),
            edge_type: self.edge_type,
            src: self.src.clone(),
            dst: self.dst.clone(),
            props: copy_fields(&self.props),
        }
    }
}

pub open spec fn node_ids(g: GraphView) -> Seq<Seq<char>> {
    g.nodes.map_values(|n: NodeView| n.id)
}

pub open spec fn edge_ids(g: GraphView) -> Seq<Seq<char>> {
    g.edges.map_values(|e: EdgeView| e.id)
}

/// The canonical order of a graph: nodes and edges each in the stable order
/// of their identifiers.
pub open spec fn canonical_graph(g: GraphView) -> GraphView {
    GraphView {
        uir_version: g.uir_version,
        nodes: key_order(node_ids(g), g.nodes.len()).map_values(|i: int| g.nodes[i]),
        edges: key_order(edge_ids(g), g.edges.len()).map_values(|i: int| g.edges[i]),
    }
}

/// The canonical order lists the same nodes and edges, each sorted by
/// identifier, equal identifiers in their original order.
pub proof fn lemma_canonical_order_sorts(g: GraphView)
    ensures
        is_permutation(key_order(node_ids(g), g.nodes.len()), g.nodes.len()),
        sorted_by_key(key_order(node_ids(g), g.nodes.len()), node_ids(g)),
        stable_by_key(key_order(node_ids(g), g.nodes.len()), node_ids(g)),
        is_permutation(key_order(edge_ids(g), g.edges.len()), g.edges.len()),
        sorted_by_key(key_order(edge_ids(g), g.edges.len()), edge_ids(g)),
        stable_by_key(key_order(edge_ids(g), g.edges.len()), edge_ids(g)),
{
    lemma_key_order_sorts(node_ids(g), g.nodes.len());
    lemma_key_order_sorts(edge_ids(g), g.edges.len());
}

/// Some earlier position holds the same identifier as position `j`.
pub open spec fn dup_at(ids: Seq<Seq<char>>, j: int) -> bool {
    exists|i: int| 0 <= i < j && ids[i] == ids[j]
}

pub open spec fn first_dup(ids: Seq<Seq<char>>, j: int) -> bool {
    &&& 0 <= j < ids.len()
    &&& dup_at(ids, j)
    &&& forall|m: int| 0 <= m < j ==> !dup_at(ids, m)
}

/// Edge `k` repeats an earlier edge identifier or names a missing node.
pub open spec fn edge_bad(g: GraphView, k: int) -> bool {
    ||| dup_at(edge_ids(g), k)
    ||| !node_ids(g).contains(g.edges[k].src)
    ||| !node_ids(g).contains(g.edges[k].dst)
}

pub open spec fn first_bad_edge(g: GraphView, k: int) -> bool {
    &&& 0 <= k < g.edges.len()
    &&& edge_bad(g, k)
    &&& forall|m: int| 0 <= m < k ==> !edge_bad(g, m)
}

/// The first invariant violation of a graph, as its message: a repeated
/// node identifier, else the first edge that repeats an edge identifier or
/// names a missing node.
pub open spec fn uir_violation(g: GraphView) -> Option<Seq<char>> {
    if exists|j: int| first_dup(node_ids(g), j) {
        let j = choose|j: int| first_dup(node_ids(g), j);
        Some("duplicate node id '"@ + node_ids(g)[j] + "'"@)
    } else if exists|k: int| first_bad_edge(g, k) {
        let k = choose|k: int| first_bad_edge(g, k);
        if dup_at(edge_ids(g), k) {
            Some("duplicate edge id '"@ + edge_ids(g)[k] + "'"@)
        } else {
            Some("edge '"@ + edge_ids(g)[k] + "' references missing node(s)"@)
        }
    } else {
        None
    }
}

proof fn lemma_first_dup_unique(ids: Seq<Seq<char>>, j: int)
    requires
        first_dup(ids, j),
    ensures
        (choose|x: int| first_dup(ids, x)) == j,
{
    let c = choose|x: int| first_dup(ids, x);
    assert(first_dup(ids, c));
    if c < j {
        assert(!dup_at(ids, c));
    }
    if j < c {
        assert(!dup_at(ids, j));
    }
}

proof fn lemma_first_bad_edge_unique(g: GraphView, k: int)
    requires
        first_bad_edge(g, k),
    ensures
        (choose|x: int| first_bad_edge(g, x)) == k,
{
    let c = choose|x: int| first_bad_edge(g, x);
    assert(first_bad_edge(g, c));
    if c < k {
        assert(!edge_bad(g, c));
    }
    if k < c {
        assert(!edge_bad(g, k));
    }
}

proof fn lemma_some_first_dup(ids: Seq<Seq<char>>, j: int)
    requires
        0 <= j < ids.len(),
        dup_at(ids, j),
    ensures
        exists|x: int| first_dup(ids, x),
    decreases j,
{
    if exists|m: int| 0 <= m < j && dup_at(ids, m) {
        let m = choose|m: int| 0 <= m < j && dup_at(ids, m);
        lemma_some_first_dup(ids, m);
    } else {
        assert(first_dup(ids, j));
    }
}

proof fn lemma_some_first_bad_edge(g: GraphView, k: int)
    requires
        0 <= k < g.edges.len(),
        edge_bad(g, k),
    ensures
        exists|x: int| first_bad_edge(g, x),
    decreases k,
{
    if exists|m: int| 0 <= m < k && edge_bad(g, m) {
        let m = choose|m: int| 0 <= m < k && edge_bad(g, m);
        lemma_some_first_bad_edge(g, m);
    } else {
        assert(first_bad_edge(g, k));
    }
}

/// A graph without violation has unique node identifiers, unique edge
/// identifiers, and edges that join existing nodes.
pub proof fn lemma_valid_graph(g: GraphView)
    requires
        uir_violation(g) is None,
    ensures
        forall|i: int, j: int| 0 <= i < j < g.nodes.len() ==> node_ids(g)[i] != node_ids(g)[j],
        forall|i: int, j: int| 0 <= i < j < g.edges.len() ==> edge_ids(g)[i] != edge_ids(g)[j],
        forall|k: int| 0 <= k < g.edges.len() ==> node_ids(g).contains(#[trigger] g.edges[k].src) && node_ids(g).contains(g.edges[k].dst),
{
    assert forall|i: int, j: int| 0 <= i < j < g.nodes.len() implies node_ids(g)[i] != node_ids(g)[j] by {
        if node_ids(g)[i] == node_ids(g)[j] {
            assert(dup_at(node_ids(g), j));
            lemma_some_first_dup(node_ids(g), j);
        }
    }
    assert forall|k: int| 0 <= k < g.edges.len() implies !edge_bad(g, k) by {
        if edge_bad(g, k) {
            lemma_some_first_bad_edge(g, k);
        }
    }
    assert forall|i: int, j: int| 0 <= i < j < g.edges.len() implies edge_ids(g)[i] != edge_ids(g)[j] by {
        assert(!edge_bad(g, j));
        if edge_ids(g)[i] == edge_ids(g)[j] {
            assert(dup_at(edge_ids(g), j));
        }
    }
    assert forall|k: int| 0 <= k < g.edges.len() implies node_ids(g).contains(#[trigger] g.edges[k].src) && node_ids(g).contains(g.edges[k].dst) by {
        assert(!edge_bad(g, k));
    }
}

impl UirGraph {
    /// Sorts nodes and edges by identifier (stable).
    #[verifier::loop_isolation(false)]
    pub fn canonicalize_order(&mut self)
        ensures
            final(self)@ == canonical_graph(old(self)@),
    {
        let ghost g = self@;
        let mut ids: Vec<String> = Vec::new();
        for i in 0..self.nodes.len()
            invariant
                ids@.len() == i,
                forall|j: int| 0 <= j < i ==> #[trigger] ids@[j]@ == self.nodes@[j].id@,
        {
            ids.push(self.nodes[i].id.clone());
        }
        assert(strings_view(ids@) =~= node_ids(g));
        let order = stable_key_order(&ids);
        let mut nodes: Vec<UirNode> = Vec::new();
        for m in 0..order.len()
            invariant
                order@.len() == self.nodes@.len(),
                forall|i: int| 0 <= i < order@.len() ==> #[trigger] order@[i] < self.nodes@.len(),
                nodes@.len() == m,
                forall|j: int| 0 <= j < m ==> #[trigger] nodes@[j]@ == self.nodes@[order@[j] as int]@,
        {
            nodes.push(self.nodes[order[m]].copy());
        }
        let mut eids: Vec<String> = Vec::new();
        for i in 0..self.edges.len()
            invariant
                eids@.len() == i,
                forall|j: int| 0 <= j < i ==> #[trigger] eids@[j]@ == self.edges@[j].id@,
        {
            eids.push(self.edges[i].id.clone());
        }
        assert(strings_view(eids@) =~= edge_ids(g));
        let eorder = stable_key_order(&eids);
        let mut edges: Vec<UirEdge> = Vec::new();
        for m in 0..eorder.len()
            invariant
                eorder@.len() == self.edges@.len(),
                forall|i: int| 0 <= i < eorder@.len() ==> #[trigger] eorder@[i] < self.edges@.len(),
                edges@.len() == m,
                forall|j: int| 0 <= j < m ==> #[trigger] edges@[j]@ == self.edges@[eorder@[j] as int]@,
        {
            edges.push(self.edges[eorder[m]].copy());
        }
        self.nodes = nodes;
        self.edges = edges;
        assert(self@.nodes =~= canonical_graph(g).nodes);
        assert(self@.edges =~= canonical_graph(g).edges);
    }

    /// Whether some node has identifier `id`.
    #[verifier::loop_isolation(false)]
    fn has_node(&self, id: &str) -> (r: bool)
        ensures
            r == node_ids(self@).contains(id@),
    {
        let ghost g = self@;
        for i in 0..self.nodes.len()
            invariant
                forall|j: int| 0 <= j < i ==> #[trigger] node_ids(g)[j] != id@,
        {
            if str_eq(self.nodes[i].id.as_str(), id) {
                assert(node_ids(g)[i as int] == id@);
                return true;
            }
        }
        false
    }

    /// Checks that node identifiers are unique, edge identifiers are unique,
    /// and every edge joins two existing nodes; reports the first violation.
    #[verifier::loop_isolation(false)]
    pub fn validate_invariants(&self) -> (r: Result<(), CoreError>)
        ensures
            r is Ok <==> uir_violation(self@) is None,
            r matches Err(e) ==> e is InvariantViolation && Some(e->InvariantViolation_0@)
                == uir_violation(self@),
    {
        let ghost g = self@;
        let ghost nids = node_ids(g);
        let ghost eids = edge_ids(g);
        let mut j: usize = 0;
        while j < self.nodes.len()
            invariant
                j <= self.nodes@.len(),
                forall|m: int| 0 <= m < j ==> !dup_at(nids, m),
            decreases self.nodes@.len() - j,
        {
            let mut i: usize = 0;
            while i < j
                invariant
                    i <= j < self.nodes@.len(),
                    forall|m: int| 0 <= m < i ==> nids[m] != nids[j as int],
                decreases j - i,
            {
                if str_eq(self.nodes[i].id.as_str(), self.nodes[j].id.as_str()) {
                    proof {
                        assert(nids[i as int] == nids[j as int]);
                        assert(first_dup(nids, j as int));
                        lemma_first_dup_unique(nids, j as int);
                    }
                    let mut msg = string_of("duplicate node id '");
                    push_str(&mut msg, self.nodes[j].id.as_str());
                    push_str(&mut msg, "'");
                    return Err(CoreError::InvariantViolation(msg));
                }
                i = i + 1;
            }
            j = j + 1;
        }
        assert(!exists|x: int| first_dup(nids, x));
        let mut k: usize = 0;
        while k < self.edges.len()
            invariant
                k <= self.edges@.len(),
                !exists|x: int| first_dup(nids, x),
                forall|m: int| 0 <= m < k ==> !edge_bad(g, m),
            decreases self.edges@.len() - k,
        {
            let mut i: usize = 0;
            while i < k
                invariant
                    i <= k < self.edges@.len(),
                    forall|m: int| 0 <= m < i ==> eids[m] != eids[k as int],
                decreases k - i,
            {
                if str_eq(self.edges[i].id.as_str(), self.edges[k].id.as_str()) {
                    proof {
                        assert(eids[i as int] == eids[k as int]);
                        assert(first_bad_edge(g, k as int));
                        lemma_first_bad_edge_unique(g, k as int);
                    }
                    let mut msg = string_of("duplicate edge id '");
                    push_str(&mut msg, self.edges[k].id.as_str());
                    push_str(&mut msg, "'");
                    return Err(CoreError::InvariantViolation(msg));
                }
                i = i + 1;
            }
            assert(!dup_at(eids, k as int));
            if !self.has_node(self.edges[k].src.as_str()) || !self.has_node(self.edges[k].dst.as_str()) {
                proof {
                    assert(first_bad_edge(g, k as int));
                    lemma_first_bad_edge_unique(g, k as int);
                }
                let mut msg = string_of("edge '");
                push_str(&mut msg, self.edges[k].id.as_str());
                push_str(&mut msg, "' references missing node(s)");
                return Err(CoreError::InvariantViolation(msg));
            }
            k = k + 1;
        }
        assert(!exists|x: int| first_bad_edge(g, x));
        Ok(())
    }
}

pub open spec fn node_type_name(t: NodeType) -> Seq<char> {
    match t {
        NodeType::Symbol => "Symbol"@,
        NodeType::Func => "Func"@,
        NodeType::Class => "Class"@,
        NodeType::Module => "Module"@,
        NodeType::Literal => "Literal"@,
        NodeType::Type => "Type"@,
        NodeType::Block => "Block"@,
        NodeType::Unknown => "Unknown"@,
    }
}

pub open spec fn edge_type_name(t: EdgeType) -> Seq<char> {
    match t {
        EdgeType::Contains => "Contains"@,
        EdgeType::Calls => "Calls"@,
        EdgeType::Reads => "Reads"@,
        EdgeType::Writes => "Writes"@,
        EdgeType::Defines => "Defines"@,
        EdgeType::Imports => "Imports"@,
        EdgeType::DependsOn => "DependsOn"@,
        EdgeType::FlowsTo => "FlowsTo"@,
        EdgeType::Unknown => "Unknown"@,
    }
}

fn node_type_text(t: NodeType) -> (r: &'static str)
    ensures
        r@ == node_type_name(t),
{
    match t {
        NodeType::Symbol => "Symbol",
        NodeType::Func => "Func",
        NodeType::Class => "Class",
        NodeType::Module => "Module",
        NodeType::Literal => "Literal",
        NodeType::Type => "Type",
        NodeType::Block => "Block",
        NodeType::Unknown => "Unknown",
    }
}

fn edge_type_text(t: EdgeType) -> (r: &'static str)
    ensures
        r@ == edge_type_name(t),
{
    match t {
        EdgeType::Contains => "Contains",
        EdgeType::Calls => "Calls",
        EdgeType::Reads => "Reads",
        EdgeType::Writes => "Writes",
        EdgeType::Defines => "Defines",
        EdgeType::Imports => "Imports",
        EdgeType::DependsOn => "DependsOn",
        EdgeType::FlowsTo => "FlowsTo",
        EdgeType::Unknown => "Unknown",
    }
}

/// The JSON form of a node: `id`, `node_type` (the variant name) and `props`.
pub open spec fn node_json(n: NodeView) -> Json {
    Json::Object(
        seq![
            ("id"@, Json::Str(n.id)),
            ("node_type"@, Json::Str(node_type_name(n.node_type))),
            ("props"@, Json::Object(n.props)),
        ],
    )
}

/// The JSON form of an edge: `id`, `edge_type`, `src`, `dst` and `props`.
pub open spec fn edge_json(e: EdgeView) -> Json {
    Json::Object(
        seq![
            ("id"@, Json::Str(e.id)),
            ("edge_type"@, Json::Str(edge_type_name(e.edge_type))),
            ("src"@, Json::Str(e.src)),
            ("dst"@, Json::Str(e.dst)),
            ("props"@, Json::Object(e.props)),
        ],
    )
}

/// The JSON form of a graph: `uir_version`, `nodes` and `edges`.
pub open spec fn graph_json(g: GraphView) -> Json {
    Json::Object(
        seq![
            ("uir_version"@, Json::Str(g.uir_version)),
            ("nodes"@, Json::Array(g.nodes.map_values(|n: NodeView| node_json(n)))),
            ("edges"@, Json::Array(g.edges.map_values(|e: EdgeView| edge_json(e)))),
        ],
    )
}

/// No identifier occurs twice.
pub open spec fn ids_distinct(ids: Seq<Seq<char>>) -> bool {
    forall|a: int, b: int| 0 <= a < b < ids.len() ==> #[trigger] ids[a] != #[trigger] ids[b]
}

/// Node and edge identifiers are unique and every edge joins two nodes of
/// the graph.
pub open spec fn well_formed_graph(g: GraphView) -> bool {
    &&& ids_distinct(node_ids(g))
    &&& ids_distinct(edge_ids(g))
    &&& forall|k: int|
        0 <= k < g.edges.len() ==> node_ids(g).contains(#[trigger] g.edges[k].src) && node_ids(g).contains(
            g.edges[k].dst,
        )
}

/// A well-formed graph violates no invariant.
pub proof fn lemma_well_formed_no_violation(g: GraphView)
    requires
        well_formed_graph(g),
    ensures
        uir_violation(g) is None,
{
    assert forall|j: int| !first_dup(node_ids(g), j) by {
        if first_dup(node_ids(g), j) {
            let i = choose|i: int| 0 <= i < j && node_ids(g)[i] == node_ids(g)[j];
            assert(node_ids(g)[i] != node_ids(g)[j]);
        }
    }
    assert forall|k: int| !first_bad_edge(g, k) by {
        if first_bad_edge(g, k) {
            if dup_at(edge_ids(g), k) {
                let i = choose|i: int| 0 <= i < k && edge_ids(g)[i] == edge_ids(g)[k];
                assert(edge_ids(g)[i] != edge_ids(g)[k]);
            }
            assert(node_ids(g).contains(g.edges[k].src));
        }
    }
}

/// Canonical ordering keeps a graph well-formed: it only rearranges nodes
/// and edges.
pub proof fn lemma_canonical_well_formed(g: GraphView)
    requires
        well_formed_graph(g),
    ensures
        well_formed_graph(canonical_graph(g)),
{
    let c = canonical_graph(g);
    lemma_canonical_order_sorts(g);
    let no = key_order(node_ids(g), g.nodes.len());
    let eo = key_order(edge_ids(g), g.edges.len());
    assert forall|a: int, b: int| 0 <= a < b < node_ids(c).len() implies #[trigger] node_ids(c)[a] != #[trigger] node_ids(
        c,
    )[b] by {
        assert(node_ids(c)[a] == node_ids(g)[no[a]]);
        assert(node_ids(c)[b] == node_ids(g)[no[b]]);
        assert(no[a] != no[b]);
        if no[a] < no[b] {
            assert(node_ids(g)[no[a]] != node_ids(g)[no[b]]);
        } else {
            assert(node_ids(g)[no[b]] != node_ids(g)[no[a]]);
        }
    }
    assert forall|a: int, b: int| 0 <= a < b < edge_ids(c).len() implies #[trigger] edge_ids(c)[a] != #[trigger] edge_ids(
        c,
    )[b] by {
        assert(edge_ids(c)[a] == edge_ids(g)[eo[a]]);
        assert(edge_ids(c)[b] == edge_ids(g)[eo[b]]);
        assert(eo[a] != eo[b]);
        if eo[a] < eo[b] {
            assert(edge_ids(g)[eo[a]] != edge_ids(g)[eo[b]]);
        } else {
            assert(edge_ids(g)[eo[b]] != edge_ids(g)[eo[a]]);
        }
    }
    assert forall|x: Seq<char>| node_ids(g).contains(x) implies node_ids(c).contains(x) by {
        let k = choose|k: int| 0 <= k < node_ids(g).len() && node_ids(g)[k] == x;
        assert(no.contains(k));
        let i = choose|i: int| 0 <= i < no.len() && no[i] == k;
        assert(node_ids(c)[i] == x);
    }
    assert forall|k: int| 0 <= k < c.edges.len() implies node_ids(c).contains(#[trigger] c.edges[k].src)
        && node_ids(c).contains(c.edges[k].dst) by {
        assert(c.edges[k] == g.edges[eo[k]]);
        assert(node_ids(g).contains(g.edges[eo[k]].src));
    }
}

/// Every property list of the graph is free of Q16.16 numbers.
pub open spec fn props_float_free(g: GraphView) -> bool {
    &&& forall|i: int| 0 <= i < g.nodes.len() ==> float_free(Json::Object(#[trigger] g.nodes[i].props))
    &&& forall|i: int| 0 <= i < g.edges.len() ==> float_free(Json::Object(#[trigger] g.edges[i].props))
}

/// A graph whose property lists are float-free has a float-free JSON form.
pub proof fn lemma_graph_json_float_free(g: GraphView)
    requires
        props_float_free(g),
    ensures
        float_free(graph_json(g)),
{
    let nj = g.nodes.map_values(|n: NodeView| node_json(n));
    let ej = g.edges.map_values(|e: EdgeView| edge_json(e));
    assert forall|i: int| 0 <= i < nj.len() implies float_free(#[trigger] nj[i]) by {
        let fs = node_json(g.nodes[i])->Object_0;
        assert(float_free(Json::Object(g.nodes[i].props)));
        lemma_float_free_members(fs, fs.len());
    }
    lemma_float_free_list(nj, nj.len());
    assert forall|i: int| 0 <= i < ej.len() implies float_free(#[trigger] ej[i]) by {
        let fs = edge_json(g.edges[i])->Object_0;
        assert(float_free(Json::Object(g.edges[i].props)));
        lemma_float_free_members(fs, fs.len());
    }
    lemma_float_free_list(ej, ej.len());
    let fs = graph_json(g)->Object_0;
    lemma_float_free_members(fs, fs.len());
}

/// Canonical ordering keeps the property lists float-free.
pub proof fn lemma_canonical_props_float_free(g: GraphView)
    requires
        props_float_free(g),
    ensures
        props_float_free(canonical_graph(g)),
{
    let c = canonical_graph(g);
    lemma_key_order(node_ids(g), g.nodes.len());
    lemma_key_order(edge_ids(g), g.edges.len());
    let no = key_order(node_ids(g), g.nodes.len());
    let eo = key_order(edge_ids(g), g.edges.len());
    assert forall|i: int| 0 <= i < c.nodes.len() implies float_free(Json::Object(#[trigger] c.nodes[i].props)) by {
        assert(0 <= no[i] < g.nodes.len());
        assert(c.nodes[i] == g.nodes[no[i]]);
    }
    assert forall|i: int| 0 <= i < c.edges.len() implies float_free(Json::Object(#[trigger] c.edges[i].props)) by {
        assert(0 <= eo[i] < g.edges.len());
        assert(c.edges[i] == g.edges[eo[i]]);
    }
}

impl UirGraph {
    /// The JSON form of the graph.
    #[verifier::loop_isolation(false)]
    pub fn to_json(&self) -> (r: JsonValue)
        ensures
            r@ == graph_json(self@),
    {
        let ghost g = self@;
        let mut nodes: Vec<JsonValue> = Vec::new();
        let mut i: usize = 0;
        while i < self.nodes.len()
            invariant
                i <= self.nodes@.len(),
                view_items(nodes@) == g.nodes.take(i as int).map_values(|n: NodeView| node_json(n)),
            decreases self.nodes@.len() - i,
        {
            let n = &self.nodes[i];
            let mut f: Vec<(String, JsonValue)> = Vec::new();
            fields_push(&mut f, "id", json_str(n.id.as_str()));
            fields_push(&mut f, "node_type", json_str(node_type_text(n.node_type)));
            fields_push(&mut f, "props", JsonValue::Object(copy_fields(&n.props)));
            assert(view_fields(f@) =~= node_json(n@)->Object_0);
            items_push(&mut nodes, JsonValue::Object(f));
            assert(g.nodes.take(i + 1).map_values(|n: NodeView| node_json(n)) =~= g.nodes.take(
                i as int,
            ).map_values(|n: NodeView| node_json(n)).push(node_json(g.nodes[i as int])));
            i = i + 1;
        }
        let mut edges: Vec<JsonValue> = Vec::new();
        let mut k: usize = 0;
        while k < self.edges.len()
            invariant
                k <= self.edges@.len(),
                view_items(edges@) == g.edges.take(k as int).map_values(|e: EdgeView| edge_json(e)),
            decreases self.edges@.len() - k,
        {
            let e = &self.edges[k];
            let mut f: Vec<(String, JsonValue)> = Vec::new();
            fields_push(&mut f, "id", json_str(e.id.as_str()));
            fields_push(&mut f, "edge_type", json_str(edge_type_text(e.edge_type)));
            fields_push(&mut f, "src", json_str(e.src.as_str()));
            fields_push(&mut f, "dst", json_str(e.dst.as_str()));
            fields_push(&mut f, "props", JsonValue::Object(copy_fields(&e.props)));
            assert(view_fields(f@) =~= edge_json(e@)->Object_0);
            items_push(&mut edges, JsonValue::Object(f));
            assert(g.edges.take(k + 1).map_values(|e: EdgeView| edge_json(e)) =~= g.edges.take(
                k as int,
            ).map_values(|e: EdgeView| edge_json(e)).push(edge_json(g.edges[k as int])));
            k = k + 1;
        }
        assert(g.nodes.take(g.nodes.len() as int) == g.nodes);
        assert(g.edges.take(g.edges.len() as int) == g.edges);
        let mut f: Vec<(String, JsonValue)> = Vec::new();
        fields_push(&mut f, "uir_version", json_str(self.uir_version.as_str()));
        fields_push(&mut f, "nodes", JsonValue::Array(nodes));
        fields_push(&mut f, "edges", JsonValue::Array(edges));
        assert(view_fields(f@) =~= graph_json(g)->Object_0);
        JsonValue::Object(f)
    }
}

} // verus!
