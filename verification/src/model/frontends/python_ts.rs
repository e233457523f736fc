//! The Python frontend: a module node and the root block of the module's
//! tree-sitter syntax tree, joined by a `Contains` edge that records the
//! root's node kind.
use vstd::prelude::*;

use crate::json::{fields_push, json_str, view_fields, Json, JsonValue};
use crate::text::{push_str, string_of};
use crate::uir::{
    canonical_graph, lemma_canonical_well_formed, lemma_well_formed_no_violation, node_ids, uir_violation,
    well_formed_graph, EdgeType, EdgeView, GraphView, NodeType, NodeView, UirEdge, UirGraph, UirNode,
};

verus! {

/// What parsing Python source with tree-sitter gives: the kind of the
/// syntax tree's root, the parser's refusal of the grammar (its message),
/// or no tree.
pub enum PythonParse {
    Parsed(String),
    LanguageRejected(String),
    NoTree,
}

/// The kind of the root node of the tree-sitter Python syntax tree of
/// `source`.
pub uninterp spec fn python_root_kind(source: Seq<char>) -> Seq<char>;

/// Parses `source` with `tree_sitter::Parser` set to
/// `tree_sitter_python::language()` (`set_language`, then `parse` with no
/// old tree) and reports the root node's `kind()`. Claimed: the grammar is
/// accepted (its language version lies in the range the parser accepts) and
/// a tree comes back (`parse` gives none only after a timeout, a
/// cancellation or without a language, none of which arises here); the
/// root's kind is `python_root_kind(source)`.
#[verifier::external_body]
fn parse_python_root(source: &str) -> (r: PythonParse)
    ensures
        r is Parsed,
        r matches PythonParse::Parsed(k) ==> k@ == python_root_kind(source@),
{
    let mut parser = tree_sitter::Parser::new();
    match parser.set_language(tree_sitter_python::language()) {
        Ok(()) => {},
        Err(e) => return PythonParse::LanguageRejected(e.to_string()),
    }
    match parser.parse(source, None) {
        Some(tree) => PythonParse::Parsed(tree.root_node().kind().to_string()),
        None => PythonParse::NoTree,
    }
}

/// The graph of a Python module with root kind `kind`: nodes
/// `module:<id>` (Module) and `root:0` (Block), and the edge
/// `contains:root` from the first to the second with property `kind`.
pub open spec fn python_graph(module_id: Seq<char>, kind: Seq<char>) -> GraphView {
    GraphView {
        uir_version: "1"@,
        nodes: seq![
            NodeView { id: "module:"@ + module_id, node_type: NodeType::Module, props: seq![] },
            NodeView { id: "root:0"@, node_type: NodeType::Block, props: seq![] },
        ],
        edges: seq![
            EdgeView {
                id: "contains:root"@,
                edge_type: EdgeType::Contains,
                src: "module:"@ + module_id,
                dst: "root:0"@,
                props: seq![("kind"@, Json::Str(kind))],
            },
        ],
    }
}

/// The graph of a Python module is well-formed: its two nodes have
/// different identifiers and its edge joins them.
pub proof fn lemma_python_graph_well_formed(module_id: Seq<char>, kind: Seq<char>)
    ensures
        well_formed_graph(python_graph(module_id, kind)),
        uir_violation(canonical_graph(python_graph(module_id, kind))) is None,
{
    let g = python_graph(module_id, kind);
    reveal_strlit("module:");
    reveal_strlit("root:0");
    assert(node_ids(g)[0][0] != node_ids(g)[1][0]);
    assert(node_ids(g)[0] == g.edges[0].src);
    assert(node_ids(g)[1] == g.edges[0].dst);
    lemma_canonical_well_formed(g);
    lemma_well_formed_no_violation(canonical_graph(g));
}

/// The canonical graph of a Python module whose syntax tree has root kind
/// `kind`.
pub fn python_module_graph(module_id: &str, kind: &str) -> (g: UirGraph)
    ensures
        g@ == canonical_graph(python_graph(module_id@, kind@)),
        uir_violation(g@) is None,
{
    proof {
        lemma_python_graph_well_formed(module_id@, kind@);
    }
    let mut module_node_id = string_of("module:");
    push_str(&mut module_node_id, module_id);
    let mut src = string_of("module:");
    push_str(&mut src, module_id);
    let mut nodes: Vec<UirNode> = Vec::new();
    nodes.push(UirNode { id: module_node_id, node_type: NodeType::Module, props: Vec::new() });
    nodes.push(UirNode { id: string_of("root:0"), node_type: NodeType::Block, props: Vec::new() });
    let mut props: Vec<(String, JsonValue)> = Vec::new();
    fields_push(&mut props, "kind", json_str(kind));
    assert(view_fields(props@) =~= seq![("kind"@, Json::Str(kind@))]);
    let mut edges: Vec<UirEdge> = Vec::new();
    edges.push(
        UirEdge {
            id: string_of("contains:root"),
            edge_type: EdgeType::Contains,
            src,
            dst: string_of("root:0"),
            props,
        },
    );
    let mut graph = UirGraph { uir_version: string_of("1"), nodes, edges };
    let ghost pg = python_graph(module_id@, kind@);
    proof {
        assert(view_fields(Seq::<(String, JsonValue)>::empty()) =~= seq![]);
        assert(graph@.nodes[0] == pg.nodes[0]);
        assert(graph@.nodes[1] == pg.nodes[1]);
        assert(graph@.edges[0] == pg.edges[0]);
        assert(graph@.nodes =~= pg.nodes);
        assert(graph@.edges =~= pg.edges);
    }
    graph.canonicalize_order();
    graph
}

/// The UIR graph of Python source: the module and the root of its syntax
/// tree. The parser accepts the grammar and always gives a tree, so this
/// succeeds.
pub fn python_to_uir(module_id: &str, input: &str) -> (r: Result<UirGraph, String>)
    ensures
        match r {
            Ok(g) => g@ == canonical_graph(python_graph(module_id@, python_root_kind(input@))) && uir_violation(g@)
                is None,
            Err(_) => false,
        },
{
    match parse_python_root(input) {
        PythonParse::Parsed(kind) => Ok(python_module_graph(module_id, kind.as_str())),
        PythonParse::LanguageRejected(msg) => {
            let mut m = string_of("language setup failed: ");
            push_str(&mut m, msg.as_str());
            Err(m)
        },
        PythonParse::NoTree => Err(string_of("python parse failed")),
    }
}

} // verus!
