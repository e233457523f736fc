//! The text frontend: one symbol node per whitespace-separated token.
use vstd::prelude::*;

use crate::json::{fields_push, json_str, view_fields, Json, JsonValue};
use crate::text::{
    chars_of, is_digit, lemma_decimal_then_text, nat_decimal, push_str, push_u64_decimal, string_from_chars,
    string_of,
};
use crate::canon_jcs::{float_free, lemma_float_free_members};
use crate::model::hdag::{
    edge_sources, edge_targets, hdag_acyclic, lemma_canonical_acyclic, lemma_node_index_unique, respects_edges,
};
use crate::uir::{
    canonical_graph, edge_ids, ids_distinct, lemma_canonical_order_sorts, lemma_canonical_props_float_free, lemma_canonical_well_formed,
    lemma_well_formed_no_violation, node_ids, props_float_free, uir_violation, well_formed_graph, EdgeType,
    EdgeView, GraphView, NodeType, NodeView, UirEdge, UirGraph, UirNode,
};

verus! {

/// Unicode white space (the characters for which `char::is_whitespace`
/// holds).
pub open spec fn is_ws(c: char) -> bool {
    ||| '\u{09}' <= c <= '\u{0D}'
    ||| c == ' '
    ||| c == '\u{85}'
    ||| c == '\u{A0}'
    ||| c == '\u{1680}'
    ||| '\u{2000}' <= c <= '\u{200A}'
    ||| c == '\u{2028}'
    ||| c == '\u{2029}'
    ||| c == '\u{202F}'
    ||| c == '\u{205F}'
    ||| c == '\u{3000}'
}

pub fn is_whitespace(c: char) -> (r: bool)
    ensures
        r == is_ws(c),
{
    ('\u{09}' <= c && c <= '\u{0D}') || c == ' ' || c == '\u{85}' || c == '\u{A0}' || c == '\u{1680}'
        || ('\u{2000}' <= c && c <= '\u{200A}') || c == '\u{2028}' || c == '\u{2029}' || c
        == '\u{202F}' || c == '\u{205F}' || c == '\u{3000}'
}

/// Length of the leading run of non-white-space characters.
pub open spec fn word_len(s: Seq<char>) -> nat
    decreases s.len(),
{
    if s.len() == 0 || is_ws(s[0]) {
        0
    } else {
        1 + word_len(s.drop_first())
    }
}

pub proof fn lemma_word_len_bound(s: Seq<char>)
    ensures
        word_len(s) <= s.len(),
    decreases s.len(),
{
    if s.len() > 0 && !is_ws(s[0]) {
        lemma_word_len_bound(s.drop_first());
    }
}

/// The maximal runs of non-white-space characters, in order
/// (`str::split_whitespace`).
pub open spec fn split_ws(s: Seq<char>) -> Seq<Seq<char>>
    decreases s.len(),
{
    if s.len() == 0 {
        seq![]
    } else if is_ws(s[0]) {
        split_ws(s.drop_first())
    } else {
        proof {
            lemma_word_len_bound(s);
        }
        seq![s.take(word_len(s) as int)] + split_ws(s.skip(word_len(s) as int))
    }
}

proof fn lemma_word_len_exact(u: Seq<char>, m: int)
    requires
        0 <= m <= u.len(),
        forall|x: int| 0 <= x < m ==> !is_ws(u[x]),
        m == u.len() || is_ws(u[m]),
    ensures
        word_len(u) == m,
    decreases m,
{
    if m > 0 {
        let t = u.drop_first();
        assert forall|x: int| 0 <= x < m - 1 implies !is_ws(t[x]) by {
            assert(t[x] == u[x + 1]);
        }
        if m < u.len() {
            assert(t[m - 1] == u[m]);
        }
        lemma_word_len_exact(t, m - 1);
    }
}

/// A complete word followed by white space or the end splits off first.
proof fn lemma_split_word(u: Seq<char>, m: int)
    requires
        0 < m <= u.len(),
        forall|x: int| 0 <= x < m ==> !is_ws(u[x]),
        m == u.len() || is_ws(u[m]),
    ensures
        split_ws(u) == seq![u.take(m)] + split_ws(u.skip(m)),
{
    lemma_word_len_exact(u, m);
}

pub open spec fn module_node_id(module: Seq<char>) -> Seq<char> {
    "module:"@ + module
}

pub open spec fn symbol_id(idx: nat, t: Seq<char>) -> Seq<char> {
    "symbol:"@ + nat_decimal(idx) + ":"@ + t
}

pub open spec fn symbol_node(idx: nat, t: Seq<char>) -> NodeView {
    NodeView {
        id: symbol_id(idx, t),
        node_type: NodeType::Symbol,
        props: seq![("token"@, Json::Str(t))],
    }
}

pub open spec fn text_nodes(module: Seq<char>, toks: Seq<Seq<char>>) -> Seq<NodeView> {
    seq![NodeView { id: module_node_id(module), node_type: NodeType::Module, props: seq![] }]
        + Seq::new(toks.len(), |i: int| symbol_node(i as nat, toks[i]))
}

pub open spec fn contains_edge(module: Seq<char>, idx: nat, t: Seq<char>) -> EdgeView {
    EdgeView {
        id: "contains:"@ + nat_decimal(idx),
        edge_type: EdgeType::Contains,
        src: module_node_id(module),
        dst: symbol_id(idx, t),
        props: seq![],
    }
}

pub open spec fn flow_edge(idx: nat, prev: Seq<char>, t: Seq<char>) -> EdgeView {
    EdgeView {
        id: "flow:"@ + nat_decimal(idx),
        edge_type: EdgeType::FlowsTo,
        src: symbol_id((idx - 1) as nat, prev),
        dst: symbol_id(idx, t),
        props: seq![],
    }
}

/// For each token `i`: the edge `contains:i` from the module node, then, for
/// `i > 0`, the edge `flow:i` from token `i - 1`.
pub open spec fn text_edges(module: Seq<char>, toks: Seq<Seq<char>>) -> Seq<EdgeView>
    decreases toks.len(),
{
    if toks.len() == 0 {
        seq![]
    } else {
        let n = (toks.len() - 1) as nat;
        text_edges(module, toks.drop_last()) + seq![contains_edge(module, n, toks[n as int])] + (if n
            > 0 {
            seq![flow_edge(n, toks[n - 1], toks[n as int])]
        } else {
            seq![]
        })
    }
}

/// The graph of a text before canonical ordering.
pub open spec fn text_graph(module: Seq<char>, input: Seq<char>) -> GraphView {
    GraphView {
        uir_version: "1"@,
        nodes: text_nodes(module, split_ws(input)),
        edges: text_edges(module, split_ws(input)),
    }
}

/// The edges of a text graph carry no properties.
proof fn lemma_text_edges_no_props(module: Seq<char>, toks: Seq<Seq<char>>)
    ensures
        forall|i: int| 0 <= i < text_edges(module, toks).len() ==> (#[trigger] text_edges(module, toks)[i]).props
            == Seq::<(Seq<char>, Json)>::empty(),
    decreases toks.len(),
{
    if toks.len() > 0 {
        lemma_text_edges_no_props(module, toks.drop_last());
    }
}

/// The property lists of a text graph, in canonical order, are float-free:
/// nodes carry at most a `token` string, edges nothing.
pub proof fn lemma_text_graph_float_free(module: Seq<char>, input: Seq<char>)
    ensures
        props_float_free(canonical_graph(text_graph(module, input))),
{
    let g = text_graph(module, input);
    let toks = split_ws(input);
    lemma_text_edges_no_props(module, toks);
    lemma_float_free_members(Seq::<(Seq<char>, Json)>::empty(), 0);
    assert forall|i: int| 0 <= i < g.nodes.len() implies float_free(Json::Object(#[trigger] g.nodes[i].props)) by {
        let fs = g.nodes[i].props;
        lemma_float_free_members(fs, fs.len());
    }
    assert forall|i: int| 0 <= i < g.edges.len() implies float_free(Json::Object(#[trigger] g.edges[i].props)) by {
        assert(g.edges[i].props == Seq::<(Seq<char>, Json)>::empty());
    }
    lemma_canonical_props_float_free(g);
}

proof fn lemma_edge_ids_differ(i: nat, j: nat)
    ensures
        ("contains:"@ + nat_decimal(i)) != ("flow:"@ + nat_decimal(j)),
        i != j ==> ("contains:"@ + nat_decimal(i)) != ("contains:"@ + nat_decimal(j)),
        i != j ==> ("flow:"@ + nat_decimal(i)) != ("flow:"@ + nat_decimal(j)),
{
    reveal_strlit("contains:");
    reveal_strlit("flow:");
    assert(("contains:"@ + nat_decimal(i))[0] != ("flow:"@ + nat_decimal(j))[0]);
    let e = Seq::<char>::empty();
    assert("contains:"@ + nat_decimal(i) + e =~= "contains:"@ + nat_decimal(i));
    assert("contains:"@ + nat_decimal(j) + e =~= "contains:"@ + nat_decimal(j));
    assert("flow:"@ + nat_decimal(i) + e =~= "flow:"@ + nat_decimal(i));
    assert("flow:"@ + nat_decimal(j) + e =~= "flow:"@ + nat_decimal(j));
    if ("contains:"@ + nat_decimal(i)) == ("contains:"@ + nat_decimal(j)) {
        lemma_decimal_then_text("contains:"@, i, e, j, e);
    }
    if ("flow:"@ + nat_decimal(i)) == ("flow:"@ + nat_decimal(j)) {
        lemma_decimal_then_text("flow:"@, i, e, j, e);
    }
}

proof fn lemma_node_ids_differ(module: Seq<char>, i: nat, t: Seq<char>, j: nat, u: Seq<char>)
    ensures
        module_node_id(module) != symbol_id(i, t),
        i != j ==> symbol_id(i, t) != symbol_id(j, u),
{
    reveal_strlit("module:");
    reveal_strlit("symbol:");
    reveal_strlit(":");
    assert(module_node_id(module)[0] != symbol_id(i, t)[0]);
    let p = "symbol:"@;
    let x = ":"@ + t;
    let y = ":"@ + u;
    assert(symbol_id(i, t) =~= p + nat_decimal(i) + x);
    assert(symbol_id(j, u) =~= p + nat_decimal(j) + y);
    assert(!is_digit(x[0]));
    assert(!is_digit(y[0]));
    if symbol_id(i, t) == symbol_id(j, u) {
        lemma_decimal_then_text(p, i, x, j, y);
    }
}

/// Edge `e` is the contains edge of token `i`, or (for `i > 0`) its flow
/// edge.
spec fn text_edge_at(module: Seq<char>, toks: Seq<Seq<char>>, e: EdgeView, i: int) -> bool {
    &&& 0 <= i < toks.len()
    &&& (e == contains_edge(module, i as nat, toks[i]) || (0 < i && e == flow_edge(i as nat, toks[i - 1], toks[i])))
}

/// Edge `k` of a text's edges belongs to some token.
spec fn edge_shaped(module: Seq<char>, toks: Seq<Seq<char>>, k: int) -> bool {
    exists|i: int| text_edge_at(module, toks, text_edges(module, toks)[k], i)
}

proof fn lemma_text_edges_shape(module: Seq<char>, toks: Seq<Seq<char>>)
    ensures
        forall|k: int| 0 <= k < text_edges(module, toks).len() ==> #[trigger] edge_shaped(module, toks, k),
        ids_distinct(text_edges(module, toks).map_values(|e: EdgeView| e.id)),
    decreases toks.len(),
{
    if toks.len() > 0 {
        let n = (toks.len() - 1) as nat;
        let pre = toks.drop_last();
        lemma_text_edges_shape(module, pre);
        let old_e = text_edges(module, pre);
        let all = text_edges(module, toks);
        let ids = all.map_values(|e: EdgeView| e.id);
        assert forall|k: int| 0 <= k < text_edges(module, toks).len() implies #[trigger] edge_shaped(module, toks, k) by {
            if k < old_e.len() {
                assert(all[k] == old_e[k]);
                assert(edge_shaped(module, pre, k));
                let i = choose|i: int| text_edge_at(module, pre, old_e[k], i);
                assert(pre[i] == toks[i]);
                if i > 0 {
                    assert(pre[i - 1] == toks[i - 1]);
                }
                assert(text_edge_at(module, toks, all[k], i));
            } else {
                assert(text_edge_at(module, toks, all[k], n as int));
            }
        }
        assert forall|a: int, b: int| 0 <= a < b < ids.len() implies #[trigger] ids[a] != #[trigger] ids[b] by {
            if b < old_e.len() {
                assert(old_e.map_values(|e: EdgeView| e.id)[a] != old_e.map_values(|e: EdgeView| e.id)[b]);
            } else if a < old_e.len() {
                assert(edge_shaped(module, pre, a));
                let i = choose|i: int| text_edge_at(module, pre, old_e[a], i);
                assert(all[a] == old_e[a]);
                lemma_edge_ids_differ(i as nat, n);
                lemma_edge_ids_differ(n, i as nat);
            } else {
                lemma_edge_ids_differ(n, n);
            }
        }
    } else {
        assert(text_edges(module, toks).len() == 0);
    }
}

/// The graph of a text is well-formed: identifiers are unique (token
/// identifiers carry the token's position) and every edge joins the module
/// or token nodes.
pub proof fn lemma_text_graph_well_formed(module: Seq<char>, input: Seq<char>)
    ensures
        well_formed_graph(text_graph(module, input)),
        uir_violation(canonical_graph(text_graph(module, input))) is None,
{
    let g = text_graph(module, input);
    let toks = split_ws(input);
    let ni = node_ids(g);
    assert forall|i: int| 0 < i < ni.len() implies #[trigger] ni[i] == symbol_id((i - 1) as nat, toks[i - 1]) by {
    }
    assert(ni[0] == module_node_id(module));
    assert forall|a: int, b: int| 0 <= a < b < ni.len() implies #[trigger] ni[a] != #[trigger] ni[b] by {
        if a == 0 {
            lemma_node_ids_differ(module, (b - 1) as nat, toks[b - 1], 0, toks[b - 1]);
        } else {
            lemma_node_ids_differ(module, (a - 1) as nat, toks[a - 1], (b - 1) as nat, toks[b - 1]);
        }
    }
    lemma_text_edges_shape(module, toks);
    assert(edge_ids(g) == text_edges(module, toks).map_values(|e: EdgeView| e.id));
    assert forall|k: int| 0 <= k < g.edges.len() implies ni.contains(#[trigger] g.edges[k].src) && ni.contains(
        g.edges[k].dst,
    ) by {
        assert(edge_shaped(module, toks, k));
        let i = choose|i: int| text_edge_at(module, toks, g.edges[k], i);
        assert(ni[i + 1] == symbol_id(i as nat, toks[i]));
        if g.edges[k] == contains_edge(module, i as nat, toks[i]) {
            assert(ni[0] == g.edges[k].src);
        } else {
            assert(ni[i] == symbol_id((i - 1) as nat, toks[i - 1]));
        }
    }
    lemma_canonical_well_formed(g);
    lemma_well_formed_no_violation(canonical_graph(g));
}

/// The graph of a text is acyclic: every edge leads from the module, or
/// from a token, to a later token.
pub proof fn lemma_text_graph_acyclic(module: Seq<char>, input: Seq<char>)
    requires
        split_ws(input).len() < usize::MAX,
    ensures
        hdag_acyclic(text_graph(module, input)),
        hdag_acyclic(canonical_graph(text_graph(module, input))),
{
    let g = text_graph(module, input);
    let toks = split_ws(input);
    lemma_text_graph_well_formed(module, input);
    let ni = node_ids(g);
    let f = Seq::new(g.nodes.len(), |i: int| i);
    assert forall|k: int| 0 <= k < edge_sources(g).len() implies f[edge_sources(g)[k] as int] < f[edge_targets(
        g,
    )[k] as int] by {
        lemma_text_edges_shape(module, toks);
        assert(edge_shaped(module, toks, k));
        let i = choose|i: int| text_edge_at(module, toks, g.edges[k], i);
        assert(ni[i + 1] == symbol_id(i as nat, toks[i]));
        lemma_node_index_unique(g, i + 1);
        if g.edges[k] == contains_edge(module, i as nat, toks[i]) {
            assert(ni[0] == module_node_id(module));
            lemma_node_index_unique(g, 0);
        } else {
            assert(ni[i] == symbol_id((i - 1) as nat, toks[i - 1]));
            lemma_node_index_unique(g, i);
        }
    }
    assert(f.len() == g.nodes.len() && respects_edges(edge_sources(g), edge_targets(g), f));
    lemma_canonical_acyclic(g);
}

/// A text graph has a node for the module and one per token, and an edge
/// for each token plus one between each pair of neighbouring tokens; it
/// depends on the text only through its tokens.
pub proof fn lemma_text_graph_shape(module: Seq<char>, input: Seq<char>, other: Seq<char>)
    ensures
        canonical_graph(text_graph(module, input)).nodes.len() == split_ws(input).len() + 1,
        canonical_graph(text_graph(module, input)).edges.len() == (if split_ws(input).len() == 0 {
            0
        } else {
            2 * split_ws(input).len() - 1
        }),
        split_ws(input) == split_ws(other) ==> text_graph(module, input) == text_graph(module, other),
{
    let g = text_graph(module, input);
    lemma_text_edges_len(module, split_ws(input));
    lemma_canonical_order_sorts(g);
}

proof fn lemma_text_edges_len(module: Seq<char>, toks: Seq<Seq<char>>)
    ensures
        text_edges(module, toks).len() == (if toks.len() == 0 {
            0
        } else {
            2 * toks.len() - 1
        }),
    decreases toks.len(),
{
    if toks.len() > 0 {
        lemma_text_edges_len(module, toks.drop_last());
    }
}

proof fn lemma_word_chars(s: Seq<char>)
    ensures
        forall|x: int| 0 <= x < word_len(s) ==> !is_ws(#[trigger] s[x]),
        word_len(s) < s.len() ==> is_ws(s[word_len(s) as int]),
    decreases s.len(),
{
    lemma_word_len_bound(s);
    if s.len() > 0 && !is_ws(s[0]) {
        lemma_word_chars(s.drop_first());
        assert forall|x: int| 0 <= x < word_len(s) implies !is_ws(#[trigger] s[x]) by {
            if x > 0 {
                assert(s[x] == s.drop_first()[x - 1]);
            }
        }
    }
}

proof fn lemma_filter_all(t: Seq<char>, p: spec_fn(char) -> bool)
    requires
        forall|x: int| 0 <= x < t.len() ==> p(#[trigger] t[x]),
    ensures
        t.filter(p) == t,
    decreases t.len(),
{
    if t.len() > 0 {
        let rest = t.drop_first();
        lemma_filter_all(rest, p);
        assert(t =~= seq![t[0]] + rest);
        rest.lemma_filter_prepend(t[0], p);
    } else {
        assert(t.filter(p) =~= t);
    }
}

/// The tokens of a text, in terms of its characters: each token is a
/// non-empty run of characters none of which is white space (the Unicode
/// `White_Space` characters, for which `char::is_whitespace` holds), and
/// together, in order, they hold exactly the text's non-white-space
/// characters. Token `i` is the `token` property of the graph's node `i + 1`.
pub proof fn lemma_text_tokens(module: Seq<char>, input: Seq<char>)
    ensures
        forall|i: int| 0 <= i < split_ws(input).len() ==> (#[trigger] split_ws(input)[i]).len() > 0,
        forall|i: int, x: int|
            #![trigger split_ws(input)[i][x]]
            0 <= i < split_ws(input).len() && 0 <= x < split_ws(input)[i].len() ==> !({
                let c = split_ws(input)[i][x];
                ('\u{09}' <= c <= '\u{0D}' || c == ' ' || c == '\u{85}' || c == '\u{A0}' || c == '\u{1680}' || ('\u{2000}' <= c <= '\u{200A}') || c == '\u{2028}' || c == '\u{2029}' || c == '\u{202F}' || c == '\u{205F}' || c == '\u{3000}')
            }),
        split_ws(input).flatten() == input.filter(|c: char| !('\u{09}' <= c <= '\u{0D}' || c == ' ' || c == '\u{85}' || c == '\u{A0}' || c == '\u{1680}' || ('\u{2000}' <= c <= '\u{200A}') || c == '\u{2028}' || c == '\u{2029}' || c == '\u{202F}' || c == '\u{205F}' || c == '\u{3000}')),
        text_graph(module, input).nodes.len() == split_ws(input).len() + 1,
        forall|i: int|
            0 <= i < split_ws(input).len() ==> text_graph(module, input).nodes[i + 1].props == seq![
                ("token"@, Json::Str(#[trigger] split_ws(input)[i])),
            ],
    decreases input.len(),
{
    let p = |c: char| !('\u{09}' <= c <= '\u{0D}' || c == ' ' || c == '\u{85}' || c == '\u{A0}' || c == '\u{1680}' || ('\u{2000}' <= c <= '\u{200A}') || c == '\u{2028}' || c == '\u{2029}' || c == '\u{202F}' || c == '\u{205F}' || c == '\u{3000}');
    let toks = split_ws(input);
    if input.len() == 0 {
        assert(input.filter(p) =~= Seq::<char>::empty());
    } else if is_ws(input[0]) {
        let rest = input.drop_first();
        lemma_text_tokens(module, rest);
        assert(input =~= seq![input[0]] + rest);
        rest.lemma_filter_prepend(input[0], p);
        assert(!p(input[0]));
    } else {
        lemma_word_chars(input);
        lemma_word_len_bound(input);
        let w = word_len(input) as int;
        let word = input.take(w);
        let rest = input.skip(w);
        lemma_text_tokens(module, rest);
        assert(input =~= word + rest);
        Seq::filter_distributes_over_add(word, rest, p);
        assert forall|x: int| 0 <= x < word.len() implies p(#[trigger] word[x]) by {
            assert(!is_ws(input[x]));
        }
        lemma_filter_all(word, p);
        assert(toks == seq![word] + split_ws(rest));
        assert((seq![word] + split_ws(rest)).drop_first() =~= split_ws(rest));
        assert(w > 0);
        assert forall|i: int| 0 <= i < toks.len() implies (#[trigger] toks[i]).len() > 0 by {
            if i > 0 {
                assert(toks[i] == split_ws(rest)[i - 1]);
            }
        }
        assert forall|i: int, x: int|
            #![trigger toks[i][x]]
            0 <= i < toks.len() && 0 <= x < toks[i].len() implies !({
                let c = toks[i][x];
                ('\u{09}' <= c <= '\u{0D}' || c == ' ' || c == '\u{85}' || c == '\u{A0}' || c == '\u{1680}' || ('\u{2000}' <= c <= '\u{200A}') || c == '\u{2028}' || c == '\u{2029}' || c == '\u{202F}' || c == '\u{205F}' || c == '\u{3000}')
            }) by {
            if i > 0 {
                assert(toks[i] == split_ws(rest)[i - 1]);
                assert(toks[i][x] == split_ws(rest)[i - 1][x]);
            } else {
                assert(!is_ws(input[x]));
            }
        }
    }
}

/// The white-space separated tokens of `input`.
#[verifier::loop_isolation(false)]
#[verifier::rlimit(40)]
pub fn split_whitespace(input: &str) -> (toks: Vec<String>)
    ensures
        toks@.map_values(|t: String| t@) == split_ws(input@),
{
    let cs = chars_of(input);
    let ghost s = cs@;
    let mut toks: Vec<String> = Vec::new();
    let mut start: usize = 0;
    let mut i: usize = 0;
    assert(s.skip(0) == s);
    while i < cs.len()
        invariant
            start <= i <= cs@.len(),
            forall|x: int| start <= x < i ==> !is_ws(s[x]),
            toks@.map_values(|t: String| t@) + split_ws(s.skip(start as int)) == split_ws(s),
        decreases cs@.len() - i,
    {
        let c = cs[i];
        if is_whitespace(c) {
            let ghost u = s.skip(start as int);
            if start < i {
                let word = string_from_chars(&cs.as_slice()[start..i]);
                proof {
                    let m = i - start;
                    assert forall|x: int| 0 <= x < m implies !is_ws(u[x]) by {
                        assert(u[x] == s[start + x]);
                    }
                    assert(u[m as int] == c);
                    lemma_split_word(u, m as int);
                    assert(u.take(m as int) =~= s.subrange(start as int, i as int));
                    assert(u.skip(m as int) =~= s.skip(i as int));
                }
                let ghost before = toks@.map_values(|t: String| t@);
                toks.push(word);
                assert(toks@.map_values(|t: String| t@) =~= before.push(s.subrange(start as int, i as int)));
            }
            proof {
                let v = s.skip(i as int);
                assert(v[0] == c);
                assert(v.drop_first() =~= s.skip(i + 1));
            }
            start = i + 1;
        }
        i = i + 1;
    }
    if start < cs.len() {
        let word = string_from_chars(&cs.as_slice()[start..cs.len()]);
        proof {
            let u = s.skip(start as int);
            let m = cs@.len() - start;
            assert forall|x: int| 0 <= x < m implies !is_ws(u[x]) by {
                assert(u[x] == s[start + x]);
            }
            lemma_split_word(u, m as int);
            assert(u.take(m as int) =~= s.subrange(start as int, cs@.len() as int));
            assert(u.skip(m as int) =~= Seq::<char>::empty());
        }
        let ghost before = toks@.map_values(|t: String| t@);
        toks.push(word);
        assert(toks@.map_values(|t: String| t@) =~= before.push(s.subrange(start as int, cs@.len() as int)));
    } else {
        assert(s.skip(start as int) =~= Seq::<char>::empty());
    }
    assert(toks@.map_values(|t: String| t@) =~= split_ws(s));
    toks
}

fn symbol_id_text(idx: usize, t: &str) -> (r: String)
    ensures
        r@ == symbol_id(idx as nat, t@),
{
    let mut r = string_of("symbol:");
    push_u64_decimal(&mut r, idx as u64);
    push_str(&mut r, ":");
    push_str(&mut r, t);
    r
}

fn module_id_text(module_id: &str) -> (r: String)
    ensures
        r@ == module_node_id(module_id@),
{
    let mut r = string_of("module:");
    push_str(&mut r, module_id);
    r
}

/// The UIR graph of a text: a module node, one symbol node per token
/// (carrying the token), a `contains` edge to each token and a `flow` edge
/// between consecutive tokens; nodes and edges in canonical order.
#[verifier::loop_isolation(false)]
pub fn text_to_uir(module_id: &str, input: &str) -> (g: UirGraph)
    ensures
        g@ == canonical_graph(text_graph(module_id@, input@)),
        uir_violation(g@) is None,
        hdag_acyclic(g@),
{
    proof {
        lemma_text_graph_well_formed(module_id@, input@);
    }
    let toks = split_whitespace(input);
    let ghost tv = toks@.map_values(|t: String| t@);
    let mut nodes: Vec<UirNode> = Vec::new();
    nodes.push(UirNode { id: module_id_text(module_id), node_type: NodeType::Module, props: Vec::new() });
    let mut edges: Vec<UirEdge> = Vec::new();
    let mut i: usize = 0;
    proof {
        assert(view_fields(Seq::<(String, JsonValue)>::empty()) =~= seq![]);
        assert(nodes@.map_values(|n: UirNode| n@) =~= text_nodes(module_id@, tv.take(0)));
        assert(edges@.map_values(|e: UirEdge| e@) =~= text_edges(module_id@, tv.take(0)));
    }
    while i < toks.len()
        invariant
            i <= toks@.len(),
            tv.len() == toks@.len(),
            forall|j: int| 0 <= j < toks@.len() ==> #[trigger] tv[j] == toks@[j]@,
            nodes@.map_values(|n: UirNode| n@) == text_nodes(module_id@, tv.take(i as int)),
            edges@.map_values(|e: UirEdge| e@) == text_edges(module_id@, tv.take(i as int)),
        decreases toks@.len() - i,
    {
        let tok = toks[i].as_str();
        let sid = symbol_id_text(i, tok);
        let mut props: Vec<(String, JsonValue)> = Vec::new();
        fields_push(&mut props, "token", json_str(tok));
        assert(view_fields(props@) =~= seq![("token"@, Json::Str(tv[i as int]))]);
        let ghost nb = nodes@.map_values(|n: UirNode| n@);
        nodes.push(UirNode { id: sid.clone(), node_type: NodeType::Symbol, props });
        proof {
            let t0 = tv.take(i as int);
            let t1 = tv.take(i + 1);
            assert(t1.drop_last() =~= t0);
            let s0 = Seq::new(t0.len(), |j: int| symbol_node(j as nat, t0[j]));
            let s1 = Seq::new(t1.len(), |j: int| symbol_node(j as nat, t1[j]));
            assert(s1 =~= s0.push(symbol_node(i as nat, tv[i as int])));
            assert(nodes@.map_values(|n: UirNode| n@) =~= nb.push(symbol_node(i as nat, tv[i as int])));
            assert(nodes@.map_values(|n: UirNode| n@) =~= text_nodes(module_id@, t1));
        }
        let ghost eb = edges@.map_values(|e: UirEdge| e@);
        edges.push(
            UirEdge {
                id: {
                    let mut e = string_of("contains:");
                    push_u64_decimal(&mut e, i as u64);
                    e
                },
                edge_type: EdgeType::Contains,
                src: module_id_text(module_id),
                dst: sid.clone(),
                props: Vec::new(),
            },
        );
        if i > 0 {
            let prev = symbol_id_text(i - 1, toks[i - 1].as_str());
            edges.push(
                UirEdge {
                    id: {
                        let mut e = string_of("flow:");
                        push_u64_decimal(&mut e, i as u64);
                        e
                    },
                    edge_type: EdgeType::FlowsTo,
                    src: prev,
                    dst: sid,
                    props: Vec::new(),
                },
            );
        }
        proof {
            let t1 = tv.take(i + 1);
            assert(t1.drop_last() =~= tv.take(i as int));
            assert(t1[i as int] == tv[i as int]);
            if i > 0 {
                assert(t1[i - 1] == tv[i - 1]);
            }
            assert(view_fields(Seq::<(String, JsonValue)>::empty()) =~= seq![]);
            assert(edges@.map_values(|e: UirEdge| e@) =~= text_edges(module_id@, t1));
        }
        i = i + 1;
    }
    assert(tv.take(toks@.len() as int) == tv);
    let mut g = UirGraph { uir_version: string_of("1"), nodes, edges };
    assert(g@ == text_graph(module_id@, input@));
    let node_count = g.nodes.len();
    proof {
        assert(node_count == g@.nodes.len());
        assert(g@.nodes.len() == split_ws(input@).len() + 1);
        lemma_text_graph_acyclic(module_id@, input@);
    }
    g.canonicalize_order();
    g
}

} // verus!
