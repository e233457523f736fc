//! HDAG ranking: a topological order of a UIR graph's nodes that always
//! takes, among the nodes whose predecessors are all ranked, the one with
//! the least (identifier digest, identifier) key.
use vstd::prelude::*;
use vstd::relations::injective_on;
use vstd::set_lib::{lemma_int_range, lemma_map_size, lemma_subset_equality, set_int_range};

use crate::digest::{digest_sha256_jcs, json_digest, sha256_prefix};
use crate::errors::CoreError;
use crate::json::{fields_push, json_str, view_fields, Json, JsonValue};
use crate::order::{lemma_lt_irreflexive, lemma_lt_total, lemma_lt_transitive};
use crate::rd::RunDescriptor;
use crate::text::{key_lt, push_str, str_eq, str_lt, string_of};
use crate::canon_jcs::key_order;
use crate::order::is_permutation;
use crate::uir::{
    canonical_graph, edge_ids, ids_distinct, lemma_canonical_order_sorts, lemma_canonical_well_formed,
    lemma_valid_graph, node_ids, uir_violation, well_formed_graph, EdgeView, GraphView, UirGraph,
};

verus! {

/// `i` comes before `j` by (digest, identifier).
pub open spec fn key_less(dg: Seq<Seq<char>>, ids: Seq<Seq<char>>, i: int, j: int) -> bool {
    key_lt(dg[i], dg[j]) || (dg[i] == dg[j] && key_lt(ids[i], ids[j]))
}

/// All edges into `x` come from nodes ranked below `r`.
pub open spec fn preds_below(es: Seq<usize>, ed: Seq<usize>, p: Seq<usize>, x: int, r: int) -> bool {
    forall|k: int| 0 <= k < es.len() && ed[k] == x ==> (p[es[k] as int] as int) < r
}

/// `x` could take rank `r`: it is not ranked below `r`, and its
/// predecessors are.
pub open spec fn avail(es: Seq<usize>, ed: Seq<usize>, p: Seq<usize>, x: int, r: int) -> bool {
    (p[x] as int) >= r && preds_below(es, ed, p, x, r)
}

/// Every edge goes from a lower to a higher label.
pub open spec fn respects_edges(es: Seq<usize>, ed: Seq<usize>, f: Seq<int>) -> bool {
    forall|k: int| 0 <= k < es.len() ==> f[es[k] as int] < f[ed[k] as int]
}

/// Some labeling of the `n` nodes makes every edge ascend.
pub open spec fn acyclic(n: nat, es: Seq<usize>, ed: Seq<usize>) -> bool {
    exists|f: Seq<int>| f.len() == n && respects_edges(es, ed, f)
}

/// `f` is the greedy ranking: a bijection onto `0..n` in which every edge
/// ascends, and the node of each rank has the least key among the nodes
/// available at that rank.
pub open spec fn greedy_ranking(
    n: nat,
    es: Seq<usize>,
    ed: Seq<usize>,
    dg: Seq<Seq<char>>,
    ids: Seq<Seq<char>>,
    f: Seq<usize>,
) -> bool {
    &&& f.len() == n
    &&& forall|x: int| 0 <= x < n ==> (#[trigger] f[x] as int) < n
    &&& forall|x: int, y: int| 0 <= x < y < n ==> f[x] != f[y]
    &&& respects_edges(es, ed, f.map_values(|v: usize| v as int))
    &&& forall|w: int, x: int|
        0 <= w < n && 0 <= x < n && avail(es, ed, f, x, f[w] as int) ==> !key_less(dg, ids, x, w)
}

/// Edges among the first `k` into `v` whose source is unranked (labelled
/// `n` or more).
pub open spec fn open_in(es: Seq<usize>, ed: Seq<usize>, p: Seq<usize>, n: nat, v: int, k: int) -> nat
    decreases k,
{
    if k <= 0 {
        0
    } else {
        open_in(es, ed, p, n, v, k - 1) + (if ed[k - 1] == v && p[es[k - 1] as int] >= n {
            1nat
        } else {
            0nat
        })
    }
}

/// Edges among the first `k` from `w` to `v`.
pub open spec fn edges_between(es: Seq<usize>, ed: Seq<usize>, w: int, v: int, k: int) -> nat
    decreases k,
{
    if k <= 0 {
        0
    } else {
        edges_between(es, ed, w, v, k - 1) + (if es[k - 1] == w && ed[k - 1] == v {
            1nat
        } else {
            0nat
        })
    }
}

/// Number of ranked nodes (labels below `n`) among the first `k`.
pub open spec fn num_ranked(p: Seq<usize>, n: nat, k: int) -> nat
    decreases k,
{
    if k <= 0 {
        0
    } else {
        num_ranked(p, n, k - 1) + (if p[k - 1] < n {
            1nat
        } else {
            0nat
        })
    }
}

proof fn lemma_num_ranked_bound(p: Seq<usize>, n: nat, k: int)
    requires
        0 <= k <= p.len(),
    ensures
        num_ranked(p, n, k) <= k,
        num_ranked(p, n, k) == k ==> forall|x: int| 0 <= x < k ==> p[x] < n,
        num_ranked(p, n, k) < k ==> exists|x: int| 0 <= x < k && p[x] >= n,
    decreases k,
{
    if k > 0 {
        lemma_num_ranked_bound(p, n, k - 1);
    }
}

proof fn lemma_num_ranked_none(p: Seq<usize>, n: nat, k: int)
    requires
        0 <= k <= p.len(),
        forall|x: int| 0 <= x < k ==> p[x] >= n,
    ensures
        num_ranked(p, n, k) == 0,
    decreases k,
{
    if k > 0 {
        lemma_num_ranked_none(p, n, k - 1);
    }
}

proof fn lemma_num_ranked_set(p: Seq<usize>, n: nat, w: int, r: usize, k: int)
    requires
        0 <= w < p.len(),
        0 <= k <= p.len(),
        p[w] >= n,
        r < n,
    ensures
        num_ranked(p.update(w, r), n, k) == num_ranked(p, n, k) + (if w < k {
            1nat
        } else {
            0nat
        }),
    decreases k,
{
    if k > 0 {
        lemma_num_ranked_set(p, n, w, r, k - 1);
    }
}

proof fn lemma_open_in_zero(es: Seq<usize>, ed: Seq<usize>, p: Seq<usize>, n: nat, v: int, k: int)
    requires
        0 <= k <= es.len(),
        es.len() == ed.len(),
    ensures
        open_in(es, ed, p, n, v, k) == 0 <==> forall|j: int| 0 <= j < k && ed[j] == v ==> p[es[j] as int] < n,
    decreases k,
{
    if k > 0 {
        lemma_open_in_zero(es, ed, p, n, v, k - 1);
    }
}

proof fn lemma_open_in_set(es: Seq<usize>, ed: Seq<usize>, p: Seq<usize>, n: nat, w: int, r: usize, v: int, k: int)
    requires
        0 <= k <= es.len(),
        es.len() == ed.len(),
        forall|j: int| 0 <= j < es.len() ==> (es[j] as int) < p.len(),
        0 <= w < p.len(),
        p[w] >= n,
        r < n,
    ensures
        open_in(es, ed, p.update(w, r), n, v, k) + edges_between(es, ed, w, v, k) == open_in(es, ed, p, n, v, k),
    decreases k,
{
    if k > 0 {
        lemma_open_in_set(es, ed, p, n, w, r, v, k - 1);
        let j = k - 1;
        if es[j] as int == w {
            assert(p.update(w, r)[es[j] as int] == r);
        } else {
            assert(p.update(w, r)[es[j] as int] == p[es[j] as int]);
        }
    }
}

proof fn lemma_edges_between_mono(es: Seq<usize>, ed: Seq<usize>, w: int, v: int, j: int, k: int)
    requires
        0 <= j <= k,
    ensures
        edges_between(es, ed, w, v, j) <= edges_between(es, ed, w, v, k),
    decreases k - j,
{
    if j < k {
        lemma_edges_between_mono(es, ed, w, v, j, k - 1);
    }
}

/// A node stuck with an open in-edge has an unranked predecessor.
proof fn lemma_open_pred(es: Seq<usize>, ed: Seq<usize>, p: Seq<usize>, n: nat, v: int, k: int)
    requires
        0 <= k <= es.len(),
        es.len() == ed.len(),
        open_in(es, ed, p, n, v, k) > 0,
    ensures
        exists|j: int| 0 <= j < k && ed[j] == v && p[es[j] as int] >= n,
    decreases k,
{
    if open_in(es, ed, p, n, v, k - 1) > 0 {
        lemma_open_pred(es, ed, p, n, v, k - 1);
    }
}

/// Among the unranked nodes below `k`, one has the least label.
proof fn lemma_min_unranked(p: Seq<usize>, f: Seq<int>, n: nat, k: int) -> (m: int)
    requires
        0 < k <= p.len(),
        k <= f.len(),
        exists|x: int| 0 <= x < k && p[x] >= n,
    ensures
        0 <= m < k,
        p[m] >= n,
        forall|x: int| 0 <= x < k && p[x] >= n ==> f[m] <= f[x],
    decreases k,
{
    if exists|x: int| 0 <= x < k - 1 && p[x] >= n {
        let m0 = lemma_min_unranked(p, f, n, k - 1);
        if p[k - 1] >= n && f[k - 1] < f[m0] {
            k - 1
        } else {
            m0
        }
    } else {
        k - 1
    }
}

/// When every unranked node has an unranked predecessor, no labeling makes
/// all edges ascend.
proof fn lemma_stuck_cyclic(n: nat, es: Seq<usize>, ed: Seq<usize>, p: Seq<usize>, x0: int)
    requires
        p.len() == n,
        es.len() == ed.len(),
        forall|k: int| 0 <= k < es.len() ==> (es[k] as int) < n && (ed[k] as int) < n,
        0 <= x0 < n,
        p[x0] >= n,
        forall|x: int|
            0 <= x < n && p[x] >= n ==> exists|j: int| 0 <= j < es.len() && ed[j] == x && p[es[j] as int] >= n,
    ensures
        !acyclic(n, es, ed),
{
    if acyclic(n, es, ed) {
        let f = choose|f: Seq<int>| f.len() == n && respects_edges(es, ed, f);
        let m = lemma_min_unranked(p, f, n, n as int);
        let j = choose|j: int| 0 <= j < es.len() && ed[j] == m && p[es[j] as int] >= n;
        assert(f[es[j] as int] < f[ed[j] as int]);
    }
}

proof fn lemma_key_less_order(dg: Seq<Seq<char>>, ids: Seq<Seq<char>>, a: int, b: int, c: int)
    ensures
        !key_less(dg, ids, a, a),
        key_less(dg, ids, a, b) && key_less(dg, ids, b, c) ==> key_less(dg, ids, a, c),
{
    lemma_lt_irreflexive(dg[a]);
    lemma_lt_irreflexive(ids[a]);
    if key_less(dg, ids, a, b) && key_less(dg, ids, b, c) {
        if key_lt(dg[a], dg[b]) && key_lt(dg[b], dg[c]) {
            lemma_lt_transitive(dg[a], dg[b], dg[c]);
        } else if key_lt(dg[a], dg[b]) {
        } else if key_lt(dg[b], dg[c]) {
        } else {
            lemma_lt_transitive(ids[a], ids[b], ids[c]);
        }
    }
}

proof fn lemma_open_in_bound(es: Seq<usize>, ed: Seq<usize>, p: Seq<usize>, n: nat, v: int, k: int)
    requires
        0 <= k,
    ensures
        open_in(es, ed, p, n, v, k) <= k,
    decreases k,
{
    if k > 0 {
        lemma_open_in_bound(es, ed, p, n, v, k - 1);
    }
}

/// Whether node `x` comes before node `y` by (digest, identifier).
fn less_by_key(dg: &Vec<String>, ids: &Vec<String>, x: usize, y: usize) -> (r: bool)
    requires
        x < dg@.len(),
        y < dg@.len(),
        dg@.len() == ids@.len(),
    ensures
        r == key_less(dg@.map_values(|s: String| s@), ids@.map_values(|s: String| s@), x as int, y as int),
{
    str_lt(dg[x].as_str(), dg[y].as_str()) || (str_eq(dg[x].as_str(), dg[y].as_str()) && str_lt(
        ids[x].as_str(),
        ids[y].as_str(),
    ))
}

/// Among the unranked nodes without open in-edges (labelled `n` and with
/// in-degree 0), the one with the least key; `n` when there is none.
fn least_candidate(rank: &Vec<usize>, indeg: &Vec<usize>, dg: &Vec<String>, ids: &Vec<String>, n: usize) -> (best: usize)
    requires
        rank@.len() == n,
        indeg@.len() == n,
        dg@.len() == n,
        ids@.len() == n,
    ensures
        best == n || (best < n && rank@[best as int] == n && indeg@[best as int] == 0),
        forall|y: int| 0 <= y < n && rank@[y] == n && indeg@[y] == 0 ==> best < n && !key_less(
            dg@.map_values(|s: String| s@),
            ids@.map_values(|s: String| s@),
            y,
            best as int,
        ),
{
    let ghost dgv = dg@.map_values(|s: String| s@);
    let ghost idv = ids@.map_values(|s: String| s@);
    let mut best: usize = n;
    let mut x: usize = 0;
    while x < n
        invariant
            x <= n,
            rank@.len() == n,
            indeg@.len() == n,
            dg@.len() == n,
            ids@.len() == n,
            dgv == dg@.map_values(|s: String| s@),
            idv == ids@.map_values(|s: String| s@),
            best == n || (best < x && rank@[best as int] == n && indeg@[best as int] == 0),
            forall|y: int| 0 <= y < x && rank@[y] == n && indeg@[y] == 0 ==> best < n && !key_less(
                dgv,
                idv,
                y,
                best as int,
            ),
        decreases n - x,
    {
        if rank[x] == n && indeg[x] == 0 {
            if best == n || less_by_key(dg, ids, x, best) {
                proof {
                    if best < n {
                        assert forall|y: int| 0 <= y < x && rank@[y] == n && indeg@[y] == 0 implies !key_less(
                            dgv,
                            idv,
                            y,
                            x as int,
                        ) by {
                            lemma_key_less_order(dgv, idv, y, x as int, best as int);
                        }
                    }
                    lemma_key_less_order(dgv, idv, x as int, x as int, x as int);
                }
                best = x;
            }
        }
        x = x + 1;
    }
    best
}

/// The greedy ranking of `n` nodes joined by the edges `es[k] -> ed[k]`,
/// or `None` when the edges admit no ascending labeling (a cycle).
#[verifier::rlimit(60)]
#[verifier::spinoff_prover]
pub fn kahn_rank(n: usize, es: &Vec<usize>, ed: &Vec<usize>, dg: &Vec<String>, ids: &Vec<String>) -> (r: Option<Vec<usize>>)
    requires
        es@.len() == ed@.len(),
        forall|k: int| 0 <= k < es@.len() ==> (es@[k] as int) < n && (ed@[k] as int) < n,
        dg@.len() == n,
        ids@.len() == n,
    ensures
        match r {
            Some(f) => greedy_ranking(
                n as nat,
                es@,
                ed@,
                dg@.map_values(|s: String| s@),
                ids@.map_values(|s: String| s@),
                f@,
            ),
            None => !acyclic(n as nat, es@, ed@),
        },
{
    let ghost dgv = dg@.map_values(|s: String| s@);
    let ghost idv = ids@.map_values(|s: String| s@);
    let m = es.len();
    let mut rank: Vec<usize> = Vec::new();
    let mut indeg: Vec<usize> = Vec::new();
    let mut i: usize = 0;
    while i < n
        invariant
            i <= n,
            rank@.len() == i,
            indeg@.len() == i,
            forall|x: int| 0 <= x < i ==> rank@[x] == n && indeg@[x] == 0,
        decreases n - i,
    {
        rank.push(n);
        indeg.push(0);
        i = i + 1;
    }
    let mut k: usize = 0;
    while k < m
        invariant
            k <= m,
            m == es@.len(),
            es@.len() == ed@.len(),
            forall|j: int| 0 <= j < es@.len() ==> (es@[j] as int) < n && (ed@[j] as int) < n,
            rank@.len() == n,
            indeg@.len() == n,
            forall|x: int| 0 <= x < n ==> rank@[x] == n,
            forall|v: int| 0 <= v < n ==> #[trigger] indeg@[v] == open_in(es@, ed@, rank@, n as nat, v, k as int),
        decreases m - k,
    {
        let v = ed[k];
        proof {
            lemma_open_in_bound(es@, ed@, rank@, n as nat, v as int, k as int);
        }
        let d = indeg[v];
        indeg.set(v, d + 1);
        proof {
            assert forall|u: int| 0 <= u < n implies #[trigger] indeg@[u] == open_in(es@, ed@, rank@, n as nat, u, k + 1) by {
                assert(rank@[es@[k as int] as int] == n);
            }
        }
        k = k + 1;
    }
    let mut idx: usize = 0;
    proof {
        lemma_num_ranked_none(rank@, n as nat, n as int);
    }
    loop
        invariant
            m == es@.len(),
            es@.len() == ed@.len(),
            forall|j: int| 0 <= j < es@.len() ==> (es@[j] as int) < n && (ed@[j] as int) < n,
            dg@.len() == n,
            ids@.len() == n,
            dgv == dg@.map_values(|s: String| s@),
            idv == ids@.map_values(|s: String| s@),
            rank@.len() == n,
            indeg@.len() == n,
            idx <= n,
            num_ranked(rank@, n as nat, n as int) == idx,
            forall|v: int| 0 <= v < n ==> #[trigger] indeg@[v] == open_in(es@, ed@, rank@, n as nat, v, m as int),
            forall|x: int| 0 <= x < n ==> (#[trigger] rank@[x] == n || rank@[x] < idx),
            forall|x: int, y: int| 0 <= x < y < n && rank@[x] < n && rank@[y] < n ==> rank@[x] != rank@[y],
            forall|j: int| 0 <= j < m && rank@[ed@[j] as int] < n ==> rank@[es@[j] as int] < rank@[ed@[j] as int],
            forall|w: int, x: int|
                0 <= w < n && 0 <= x < n && rank@[w] < n && avail(es@, ed@, rank@, x, rank@[w] as int) ==> !key_less(
                    dgv,
                    idv,
                    x,
                    w,
                ),
        ensures
            forall|y: int| 0 <= y < n && rank@[y] == n ==> indeg@[y] > 0,
        decreases n - idx,
    {
        let best = least_candidate(&rank, &indeg, dg, ids, n);
        if best == n {
            break;
        }
        let ghost old_rank = rank@;
        let ghost old_indeg = indeg@;
        proof {
            lemma_num_ranked_bound(old_rank, n as nat, n as int);
            lemma_open_in_zero(es@, ed@, old_rank, n as nat, best as int, m as int);
            lemma_num_ranked_set(old_rank, n as nat, best as int, idx, n as int);
        }
        rank.set(best, idx);
        let ghost new_rank = rank@;
        assert(new_rank == old_rank.update(best as int, idx));
        // close the chosen node's out-edges
        let mut k: usize = 0;
        while k < m
            invariant
                k <= m,
                m == es@.len(),
                es@.len() == ed@.len(),
                forall|j: int| 0 <= j < es@.len() ==> (es@[j] as int) < n && (ed@[j] as int) < n,
                indeg@.len() == n,
                rank@ == new_rank,
                best < n,
                old_rank[best as int] == n,
                idx < n,
                old_rank.len() == n,
                new_rank == old_rank.update(best as int, idx),
                forall|v: int| 0 <= v < n ==> #[trigger] indeg@[v] + edges_between(es@, ed@, best as int, v, k as int)
                    == open_in(es@, ed@, old_rank, n as nat, v, m as int),
            decreases m - k,
        {
            if es[k] == best {
                let v = ed[k];
                proof {
                    lemma_open_in_set(es@, ed@, old_rank, n as nat, best as int, idx, v as int, m as int);
                    lemma_edges_between_mono(es@, ed@, best as int, v as int, k + 1, m as int);
                }
                let d = indeg[v];
                indeg.set(v, d - 1);
            }
            proof {
                assert forall|u: int| 0 <= u < n implies #[trigger] indeg@[u] + edges_between(es@, ed@, best as int, u, k + 1)
                    == open_in(es@, ed@, old_rank, n as nat, u, m as int) by {}
            }
            k = k + 1;
        }
        proof {
            assert forall|v: int| 0 <= v < n implies #[trigger] indeg@[v] == open_in(es@, ed@, new_rank, n as nat, v, m as int) by {
                lemma_open_in_set(es@, ed@, old_rank, n as nat, best as int, idx, v, m as int);
            }
            // edges into ranked nodes still ascend
            assert forall|j: int| 0 <= j < m && new_rank[ed@[j] as int] < n implies new_rank[es@[j] as int] < new_rank[ed@[j] as int] by {
                if ed@[j] as int == best as int {
                    assert(old_rank[es@[j] as int] < n);
                } else {
                    assert(old_rank[ed@[j] as int] < n);
                }
            }
            // availability below the new rank is unchanged for earlier ranks
            assert forall|w: int, y: int|
                0 <= w < n && 0 <= y < n && new_rank[w] < n && avail(es@, ed@, new_rank, y, new_rank[w] as int) implies !key_less(
                    dgv,
                    idv,
                    y,
                    w,
                ) by {
                if w == best as int {
                    if y != best as int {
                        assert(old_rank[y] == n);
                        assert forall|j: int| 0 <= j < m && ed@[j] as int == y implies old_rank[es@[j] as int] < n by {
                            assert(new_rank[es@[j] as int] < idx);
                        }
                        lemma_open_in_zero(es@, ed@, old_rank, n as nat, y, m as int);
                    } else {
                        lemma_key_less_order(dgv, idv, y, y, y);
                    }
                } else {
                    let r = old_rank[w] as int;
                    assert(r < idx);
                    assert(avail(es@, ed@, old_rank, y, r)) by {
                        assert forall|j: int| 0 <= j < es@.len() && ed@[j] as int == y implies (old_rank[es@[j] as int] as int) < r by {
                            assert((new_rank[es@[j] as int] as int) < r);
                        }
                    }
                }
            }
        }
        idx = idx + 1;
    }
    proof {
        lemma_num_ranked_bound(rank@, n as nat, n as int);
    }
    if idx == n {
        proof {
            let fv = rank@.map_values(|v: usize| v as int);
            assert forall|j: int| 0 <= j < es@.len() implies fv[es@[j] as int] < fv[ed@[j] as int] by {
                assert(rank@[ed@[j] as int] < n);
            }
        }
        Some(rank)
    } else {
        proof {
            let x0 = choose|x: int| 0 <= x < n && rank@[x] >= n;
            assert forall|y: int| 0 <= y < n && rank@[y] >= n implies exists|j: int|
                0 <= j < es@.len() && ed@[j] == y && rank@[es@[j] as int] >= n by {
                assert(rank@[y] == n);
                if indeg@[y] == 0 {
                    assert(!key_less(dgv, idv, y, y)) by {
                        lemma_key_less_order(dgv, idv, y, y, y);
                    }
                }
                assert(indeg@[y] > 0);
                lemma_open_pred(es@, ed@, rank@, n as nat, y, m as int);
            }
            lemma_stuck_cyclic(n as nat, es@, ed@, rank@, x0);
        }
        None
    }
}

/// The document whose digest orders a node: `{"id": id}`.
pub open spec fn id_doc(id: Seq<char>) -> Json {
    Json::Object(seq![("id"@, Json::Str(id))])
}

/// A node's ordering digest: that of its identifier document, or the bare
/// prefix `sha256:` where the document has none.
pub open spec fn id_digest(id: Seq<char>) -> Seq<char> {
    match json_digest(id_doc(id)) {
        Some(d) => d,
        None => sha256_prefix(),
    }
}

pub open spec fn node_digests(g: GraphView) -> Seq<Seq<char>> {
    node_ids(g).map_values(|id: Seq<char>| id_digest(id))
}

/// The position of the node with identifier `id`.
pub open spec fn node_index(g: GraphView, id: Seq<char>) -> int {
    choose|i: int| 0 <= i < g.nodes.len() && node_ids(g)[i] == id
}

/// The positions of the edges' source nodes.
pub open spec fn edge_sources(g: GraphView) -> Seq<usize> {
    g.edges.map_values(|e: EdgeView| node_index(g, e.src) as usize)
}

/// The positions of the edges' target nodes.
pub open spec fn edge_targets(g: GraphView) -> Seq<usize> {
    g.edges.map_values(|e: EdgeView| node_index(g, e.dst) as usize)
}

/// `f` (node `i` has rank `f[i]`) is the graph's HDAG ranking.
pub open spec fn hdag_ranking(g: GraphView, f: Seq<usize>) -> bool {
    greedy_ranking(g.nodes.len(), edge_sources(g), edge_targets(g), node_digests(g), node_ids(g), f)
}

/// The graph's edges admit an ascending labeling of its nodes.
pub open spec fn hdag_acyclic(g: GraphView) -> bool {
    acyclic(g.nodes.len(), edge_sources(g), edge_targets(g))
}

/// With distinct identifiers, the node position of an identifier is the
/// one position that holds it.
pub proof fn lemma_node_index_unique(g: GraphView, i: int)
    requires
        ids_distinct(node_ids(g)),
        0 <= i < g.nodes.len(),
    ensures
        node_index(g, node_ids(g)[i]) == i,
{
    let j = node_index(g, node_ids(g)[i]);
    assert(0 <= j < g.nodes.len() && node_ids(g)[j] == node_ids(g)[i]);
    if j < i {
        assert(node_ids(g)[j] != node_ids(g)[i]);
    } else if i < j {
        assert(node_ids(g)[i] != node_ids(g)[j]);
    }
}

proof fn lemma_edge_joins(g: GraphView, k: int)
    requires
        well_formed_graph(g),
        0 <= k < g.edges.len(),
    ensures
        node_ids(g).contains(g.edges[k].src),
        node_ids(g).contains(g.edges[k].dst),
{
    assert(node_ids(g).contains(g.edges[k].src));
}

/// Canonical ordering keeps a well-formed graph acyclic: it only
/// rearranges nodes and edges.
pub proof fn lemma_canonical_acyclic(g: GraphView)
    requires
        well_formed_graph(g),
        hdag_acyclic(g),
        g.nodes.len() <= usize::MAX,
    ensures
        hdag_acyclic(canonical_graph(g)),
{
    let c = canonical_graph(g);
    lemma_canonical_order_sorts(g);
    lemma_canonical_well_formed(g);
    let no = key_order(node_ids(g), g.nodes.len());
    let eo = key_order(edge_ids(g), g.edges.len());
    let f = choose|f: Seq<int>| f.len() == g.nodes.len() && respects_edges(edge_sources(g), edge_targets(g), f);
    let f2 = Seq::new(c.nodes.len(), |i: int| f[no[i]]);
    assert forall|k: int| 0 <= k < edge_sources(c).len() implies f2[edge_sources(c)[k] as int] < f2[edge_targets(
        c,
    )[k] as int] by {
        let e = c.edges[k];
        assert(0 <= eo[k] < g.edges.len());
        assert(e == g.edges[eo[k]]);
        let j = eo[k];
        lemma_edge_joins(g, j);
        assert(node_ids(c).contains(c.edges[k].src));
        assert(node_ids(c).contains(e.src) && node_ids(c).contains(e.dst));
        let a = choose|a: int| 0 <= a < node_ids(c).len() && node_ids(c)[a] == e.src;
        let b = choose|b: int| 0 <= b < node_ids(c).len() && node_ids(c)[b] == e.dst;
        lemma_node_index_unique(c, a);
        lemma_node_index_unique(c, b);
        assert(node_ids(c)[a] == node_ids(g)[no[a]]);
        assert(node_ids(c)[b] == node_ids(g)[no[b]]);
        lemma_node_index_unique(g, no[a]);
        lemma_node_index_unique(g, no[b]);
        assert(node_index(g, e.src) == no[a]);
        assert(node_index(g, e.dst) == no[b]);
        assert(edge_sources(g)[eo[k]] as int == node_index(g, e.src));
        assert(edge_targets(g)[eo[k]] as int == node_index(g, e.dst));
        assert(f[edge_sources(g)[eo[k]] as int] < f[edge_targets(g)[eo[k]] as int]);
        assert(edge_sources(c)[k] as int == a);
        assert(edge_targets(c)[k] as int == b);
    }
    assert(f2.len() == c.nodes.len() && respects_edges(edge_sources(c), edge_targets(c), f2));
}

/// `g2` lists the nodes of `g1` rearranged: its node `i` is node `pi[i]`
/// of `g1`.
pub open spec fn same_nodes(g1: GraphView, g2: GraphView, pi: Seq<int>) -> bool {
    &&& is_permutation(pi, g1.nodes.len())
    &&& g2.nodes.len() == g1.nodes.len()
    &&& forall|i: int| 0 <= i < g2.nodes.len() ==> #[trigger] node_ids(g2)[i] == node_ids(g1)[pi[i]]
}

/// `g2` lists the edges of `g1` rearranged: its edge `k` joins the nodes
/// that edge `sg[k]` of `g1` joins.
pub open spec fn same_edges(g1: GraphView, g2: GraphView, sg: Seq<int>) -> bool {
    &&& is_permutation(sg, g1.edges.len())
    &&& g2.edges.len() == g1.edges.len()
    &&& forall|k: int|
        0 <= k < g2.edges.len() ==> (#[trigger] g2.edges[k]).src == g1.edges[sg[k]].src && g2.edges[k].dst
            == g1.edges[sg[k]].dst
}

/// The HDAG ranking does not depend on the order in which a graph lists
/// its nodes and edges: rearranged, each node keeps its rank.
#[verifier::spinoff_prover]
#[verifier::rlimit(60)]
pub proof fn lemma_hdag_ranking_permutation(
    g1: GraphView,
    g2: GraphView,
    pi: Seq<int>,
    sg: Seq<int>,
    f1: Seq<usize>,
    f2: Seq<usize>,
)
    requires
        uir_violation(g1) is None,
        uir_violation(g2) is None,
        same_nodes(g1, g2, pi),
        same_edges(g1, g2, sg),
        hdag_ranking(g1, f1),
        hdag_ranking(g2, f2),
        g1.nodes.len() <= usize::MAX,
    ensures
        forall|i: int| 0 <= i < g2.nodes.len() ==> #[trigger] f2[i] == f1[pi[i]],
{
    lemma_valid_graph(g1);
    lemma_valid_graph(g2);
    let n = g1.nodes.len();
    let m = g1.edges.len();
    let fp = Seq::new(n, |i: int| f1[pi[i]]);
    let es1 = edge_sources(g1);
    let ed1 = edge_targets(g1);
    let es2 = edge_sources(g2);
    let ed2 = edge_targets(g2);
    let dg1 = node_digests(g1);
    let dg2 = node_digests(g2);
    let ids1 = node_ids(g1);
    let ids2 = node_ids(g2);
    assert forall|id: Seq<char>| ids2.contains(id) implies 0 <= #[trigger] node_index(g2, id) < n && node_index(g1, id)
        == pi[node_index(g2, id)] by {
        let i = choose|i: int| 0 <= i < n && ids2[i] == id;
        lemma_node_index_unique(g2, i);
        assert(0 <= pi[i] < n);
        assert(ids1[pi[i]] == id);
        lemma_node_index_unique(g1, pi[i]);
    }
    assert forall|k: int| 0 <= k < m implies (#[trigger] es2[k] as int) == node_index(g2, g2.edges[k].src) && (
    ed2[k] as int) == node_index(g2, g2.edges[k].dst) && fp[es2[k] as int] == f1[es1[sg[k]] as int]
        && fp[ed2[k] as int] == f1[ed1[sg[k]] as int] && 0 <= sg[k] < m by {
        assert(0 <= sg[k] < m);
        assert(ids2.contains(g2.edges[k].src) && ids2.contains(g2.edges[k].dst));
        assert(g2.edges[k].src == g1.edges[sg[k]].src);
        assert(ids1.contains(g1.edges[sg[k]].src));
    }
    // The rearranged ranking of `g1` is a ranking of `g2`.
    assert forall|x: int| 0 <= x < n implies (#[trigger] fp[x] as int) < n by {
        assert(0 <= pi[x] < n);
    }
    assert forall|x: int, y: int| 0 <= x < y < n implies fp[x] != fp[y] by {
        assert(pi[x] != pi[y]);
    }
    assert forall|k: int| 0 <= k < es2.len() implies fp.map_values(|v: usize| v as int)[es2[k] as int]
        < fp.map_values(|v: usize| v as int)[ed2[k] as int] by {
        assert(es2[k] as int == node_index(g2, g2.edges[k].src));
        assert(f1.map_values(|v: usize| v as int)[es1[sg[k]] as int] < f1.map_values(|v: usize| v as int)[ed1[
            sg[k]] as int]);
    }
    assert forall|w: int, x: int| 0 <= w < n && 0 <= x < n && avail(es2, ed2, fp, x, fp[w] as int) implies !key_less(
        dg2,
        ids2,
        x,
        w,
    ) by {
        assert(0 <= pi[x] < n && 0 <= pi[w] < n);
        assert forall|k1: int| 0 <= k1 < es1.len() && ed1[k1] == pi[x] implies (f1[es1[k1] as int] as int) < (
        fp[w] as int) by {
            assert(sg.contains(k1));
            let k2 = choose|k2: int| 0 <= k2 < sg.len() && sg[k2] == k1;
            assert(es2[k2] as int == node_index(g2, g2.edges[k2].src));
            assert(ed2[k2] as int == node_index(g2, g2.edges[k2].dst));
            assert(ids1[pi[x]] == ids2[x]);
            lemma_node_index_unique(g2, x);
            lemma_node_index_unique(g1, pi[x]);
            assert(ed1[k1] as int == node_index(g1, g1.edges[k1].dst));
            assert(ids1.contains(g1.edges[k1].dst));
            assert(g1.edges[k1].dst == g2.edges[k2].dst);
            assert(node_index(g1, g1.edges[k1].dst) == pi[x]);
            let j = choose|j: int| 0 <= j < n && ids1[j] == g1.edges[k1].dst;
            lemma_node_index_unique(g1, j);
            assert(ids2.contains(g2.edges[k2].dst));
            assert(node_index(g1, g2.edges[k2].dst) == pi[node_index(g2, g2.edges[k2].dst)]);
            assert(pi[ed2[k2] as int] == pi[x]);
            assert(ed2[k2] as int == x) by {
                if ed2[k2] as int != x {
                    assert(0 <= ed2[k2] < n);
                    if (ed2[k2] as int) < x {
                        assert(pi[ed2[k2] as int] != pi[x]);
                    } else {
                        assert(pi[x] != pi[ed2[k2] as int]);
                    }
                }
            }
        }
        assert(avail(es1, ed1, f1, pi[x], f1[pi[w]] as int));
        assert(!key_less(dg1, ids1, pi[x], pi[w]));
    }
    assert(greedy_ranking(n, es2, ed2, dg2, ids2, fp));
    lemma_hdag_ranking_unique(g2, f2, fp);
}

/// The error that ranking a graph reports, where it fails.
pub open spec fn rank_failure(g: GraphView, e: CoreError) -> bool {
    &&& e is InvariantViolation
    &&& match uir_violation(g) {
        Some(m) => e->InvariantViolation_0@ == m,
        None => !hdag_acyclic(g) && e->InvariantViolation_0@ == "HDAG has cycle"@,
    }
}

/// The position of the first string equal to `id`.
fn find_index(ids: &Vec<String>, id: &str) -> (r: usize)
    requires
        exists|i: int| 0 <= i < ids@.len() && ids@[i]@ == id@,
    ensures
        r < ids@.len(),
        ids@[r as int]@ == id@,
{
    let mut i: usize = 0;
    while i < ids.len()
        invariant
            i <= ids@.len(),
            forall|j: int| 0 <= j < i ==> ids@[j]@ != id@,
            exists|j: int| 0 <= j < ids@.len() && ids@[j]@ == id@,
        decreases ids@.len() - i,
    {
        if str_eq(ids[i].as_str(), id) {
            return i;
        }
        i = i + 1;
    }
    i
}

/// With unique identifiers, the position of a present identifier is the one
/// that holds it.
proof fn lemma_node_index(g: GraphView, i: int)
    requires
        forall|a: int, b: int| 0 <= a < b < g.nodes.len() ==> node_ids(g)[a] != node_ids(g)[b],
        0 <= i < g.nodes.len(),
    ensures
        node_index(g, node_ids(g)[i]) == i,
{
    let c = node_index(g, node_ids(g)[i]);
    assert(0 <= c < g.nodes.len() && node_ids(g)[c] == node_ids(g)[i]);
    if c < i {
        assert(node_ids(g)[c] != node_ids(g)[i]);
    } else if i < c {
        assert(node_ids(g)[i] != node_ids(g)[c]);
    }
}

/// The HDAG rank of every node, listed in node order: the greedy topological
/// order that takes, among the nodes whose predecessors are all ranked, the
/// one with the least (digest of `{"id": id}`, id). Fails with the graph's
/// first invariant violation, or with "HDAG has cycle".
#[verifier::loop_isolation(false)]
pub fn topo_rank(graph: &UirGraph, rd: &RunDescriptor) -> (r: Result<Vec<(String, usize)>, CoreError>)
    ensures
        match r {
            Ok(v) => {
                &&& uir_violation(graph@) is None
                &&& hdag_acyclic(graph@)
                &&& v@.len() == graph@.nodes.len()
                &&& forall|i: int| 0 <= i < v@.len() ==> #[trigger] v@[i].0@ == node_ids(graph@)[i]
                &&& hdag_ranking(graph@, v@.map_values(|p: (String, usize)| p.1))
            },
            Err(e) => rank_failure(graph@, e),
        },
{
    let ghost g = graph@;
    match graph.validate_invariants() {
        Ok(()) => {},
        Err(e) => {
            return Err(e);
        },
    }
    proof {
        lemma_valid_graph(g);
        reveal_strlit("sha256:");
    }
    let n = graph.nodes.len();
    let mut ids: Vec<String> = Vec::new();
    let mut dg: Vec<String> = Vec::new();
    for i in 0..n
        invariant
            n == g.nodes.len(),
            ids@.len() == i,
            dg@.len() == i,
            forall|j: int| 0 <= j < i ==> #[trigger] ids@[j]@ == node_ids(g)[j],
            forall|j: int| 0 <= j < i ==> #[trigger] dg@[j]@ == id_digest(node_ids(g)[j]),
    {
        let id = graph.nodes[i].id.as_str();
        let mut f: Vec<(String, JsonValue)> = Vec::new();
        fields_push(&mut f, "id", json_str(id));
        let doc = JsonValue::Object(f);
        assert(doc@ == id_doc(id@)) by {
            assert(view_fields(f@) =~= seq![("id"@, Json::Str(id@))]);
        }
        let d = match digest_sha256_jcs(&doc, rd) {
            Ok(d) => d,
            Err(_) => string_of("sha256:"),
        };
        assert(d@ == id_digest(id@));
        assert(node_ids(g)[i as int] == id@);
        ids.push(graph.nodes[i].id.clone());
        dg.push(d);
    }
    let m = graph.edges.len();
    let mut es: Vec<usize> = Vec::new();
    let mut ed: Vec<usize> = Vec::new();
    for k in 0..m
        invariant
            n == g.nodes.len(),
            m == g.edges.len(),
            ids@.len() == n,
            forall|j: int| 0 <= j < n ==> #[trigger] ids@[j]@ == node_ids(g)[j],
            es@.len() == k,
            ed@.len() == k,
            forall|j: int| 0 <= j < k ==> #[trigger] es@[j] == edge_sources(g)[j] && (es@[j] as int) < n,
            forall|j: int| 0 <= j < k ==> #[trigger] ed@[j] == edge_targets(g)[j] && (ed@[j] as int) < n,
    {
        let e = &graph.edges[k];
        assert(g.edges[k as int].src == e.src@ && g.edges[k as int].dst == e.dst@);
        let ghost si = choose|x: int| 0 <= x < n && node_ids(g)[x] == e.src@;
        let ghost ti = choose|x: int| 0 <= x < n && node_ids(g)[x] == e.dst@;
        assert(ids@[si]@ == e.src@);
        assert(ids@[ti]@ == e.dst@);
        let s = find_index(&ids, e.src.as_str());
        let t = find_index(&ids, e.dst.as_str());
        proof {
            lemma_node_index(g, s as int);
            lemma_node_index(g, t as int);
        }
        es.push(s);
        ed.push(t);
    }
    assert(es@ =~= edge_sources(g));
    assert(ed@ =~= edge_targets(g));
    assert(ids@.map_values(|s: String| s@) =~= node_ids(g));
    assert(dg@.map_values(|s: String| s@) =~= node_digests(g));
    match kahn_rank(n, &es, &ed, &dg, &ids) {
        Some(f) => {
            let mut out: Vec<(String, usize)> = Vec::new();
            for i in 0..n
                invariant
                    f@.len() == n,
                    ids@.len() == n,
                    forall|j: int| 0 <= j < n ==> #[trigger] ids@[j]@ == node_ids(g)[j],
                    out@.len() == i,
                    forall|j: int| #![trigger out@[j]] 0 <= j < i ==> out@[j].0@ == node_ids(g)[j],
                    forall|j: int| #![trigger out@[j]] 0 <= j < i ==> out@[j].1 == f@[j],
            {
                let c = ids[i].clone();
                assert(c@ == node_ids(g)[i as int]);
                out.push((c, f[i]));
            }
            proof {
                assert(out@.map_values(|p: (String, usize)| p.1) =~= f@);
                let w = f@.map_values(|v: usize| v as int);
                assert(w.len() == n && respects_edges(es@, ed@, w));
            }
            Ok(out)
        },
        None => Err(CoreError::InvariantViolation(string_of("HDAG has cycle"))),
    }
}

/// With unique identifiers, the positions of an edge's ends are those of
/// the nodes that carry its source and target identifiers.
proof fn lemma_edge_ends(g: GraphView, k: int, a: int, b: int)
    requires
        forall|x: int, y: int| 0 <= x < y < g.nodes.len() ==> node_ids(g)[x] != node_ids(g)[y],
        0 <= k < g.edges.len(),
        g.nodes.len() <= usize::MAX,
        0 <= a < g.nodes.len(),
        0 <= b < g.nodes.len(),
        node_ids(g)[a] == g.edges[k].src,
        node_ids(g)[b] == g.edges[k].dst,
    ensures
        edge_sources(g)[k] as int == a,
        edge_targets(g)[k] as int == b,
{
    lemma_node_index(g, a);
    lemma_node_index(g, b);
}

/// The rank listed for identifier `id`, if any.
fn rank_of(rank: &Vec<(String, usize)>, id: &str) -> (r: Option<usize>)
    ensures
        match r {
            Some(x) => exists|i: int| 0 <= i < rank@.len() && rank@[i].0@ == id@ && rank@[i].1 == x,
            None => forall|i: int| 0 <= i < rank@.len() ==> rank@[i].0@ != id@,
        },
{
    let mut i: usize = 0;
    while i < rank.len()
        invariant
            i <= rank@.len(),
            forall|j: int| 0 <= j < i ==> rank@[j].0@ != id@,
        decreases rank@.len() - i,
    {
        if str_eq(rank[i].0.as_str(), id) {
            return Some(rank[i].1);
        }
        i = i + 1;
    }
    None
}

/// Checks that every edge goes from a lower to a higher HDAG rank. Under the
/// HDAG ranking every edge ascends, so this fails exactly where ranking does.
#[verifier::loop_isolation(false)]
#[verifier::spinoff_prover]
pub fn enforce_acyclic_active_edges(graph: &UirGraph, rd: &RunDescriptor) -> (r: Result<(), CoreError>)
    ensures
        match r {
            Ok(()) => uir_violation(graph@) is None && hdag_acyclic(graph@),
            Err(e) => rank_failure(graph@, e),
        },
{
    let ghost g = graph@;
    let rank = match topo_rank(graph, rd) {
        Ok(v) => v,
        Err(e) => {
            return Err(e);
        },
    };
    proof {
        lemma_valid_graph(g);
    }
    let ghost f = rank@.map_values(|p: (String, usize)| p.1);
    let n_nodes = graph.nodes.len();
    for k in 0..graph.edges.len()
        invariant
            n_nodes == g.nodes.len(),
            uir_violation(g) is None,
            hdag_acyclic(g),
            rank@.len() == g.nodes.len(),
            forall|i: int| 0 <= i < rank@.len() ==> #[trigger] rank@[i].0@ == node_ids(g)[i],
            hdag_ranking(g, f),
    {
        let e = &graph.edges[k];
        assert(g.edges[k as int].src == e.src@ && g.edges[k as int].dst == e.dst@);
        let u = match rank_of(&rank, e.src.as_str()) {
            Some(u) => u,
            None => {
                proof {
                    let x = choose|x: int| 0 <= x < g.nodes.len() && node_ids(g)[x] == e.src@;
                    assert(rank@[x].0@ == e.src@);
                }
                return Err(CoreError::InvariantViolation(string_of("missing src rank")));
            },
        };
        let v = match rank_of(&rank, e.dst.as_str()) {
            Some(v) => v,
            None => {
                proof {
                    let x = choose|x: int| 0 <= x < g.nodes.len() && node_ids(g)[x] == e.dst@;
                    assert(rank@[x].0@ == e.dst@);
                }
                return Err(CoreError::InvariantViolation(string_of("missing dst rank")));
            },
        };
        proof {
            let a = choose|i: int| 0 <= i < rank@.len() && rank@[i].0@ == e.src@ && rank@[i].1 == u;
            let b = choose|i: int| 0 <= i < rank@.len() && rank@[i].0@ == e.dst@ && rank@[i].1 == v;
            lemma_edge_ends(g, k as int, a, b);
            assert(f.map_values(|x: usize| x as int)[a] < f.map_values(|x: usize| x as int)[b]);
        }
        if u >= v {
            let mut msg = string_of("edge '");
            push_str(&mut msg, e.id.as_str());
            push_str(&mut msg, "' violates Topo(u)<Topo(v)");
            return Err(CoreError::InvariantViolation(msg));
        }
    }
    Ok(())
}

/// A labeling of `n` nodes by pairwise distinct ranks below `n` uses every
/// rank.
proof fn lemma_ranks_onto(n: nat, f: Seq<usize>, r: int)
    requires
        f.len() == n,
        forall|x: int| 0 <= x < n ==> (#[trigger] f[x] as int) < n,
        forall|x: int, y: int| 0 <= x < y < n ==> f[x] != f[y],
        0 <= r < n,
    ensures
        exists|x: int| 0 <= x < n && f[x] as int == r,
{
    let dom = set_int_range(0, n as int);
    let lab = |i: int| f[i] as int;
    lemma_int_range(0, n as int);
    assert(injective_on(lab, dom)) by {
        assert forall|a: int, b: int| dom.contains(a) && dom.contains(b) && #[trigger] lab(a) == #[trigger] lab(b) implies a == b by {
            if a < b {
                assert(f[a] != f[b]);
            } else if b < a {
                assert(f[b] != f[a]);
            }
        }
    }
    let img = dom.map(lab);
    lemma_map_size(dom, img, lab);
    assert(img.subset_of(dom)) by {
        assert forall|v: int| img.contains(v) implies dom.contains(v) by {
            let i = choose|i: int| dom.contains(i) && lab(i) == v;
        }
    }
    lemma_subset_equality(img, dom);
    assert(dom.contains(r));
    assert(img.contains(r));
    let x = choose|i: int| dom.contains(i) && lab(i) == r;
    assert(0 <= x < n && f[x] as int == r);
}

/// Distinct nodes have distinct keys when identifiers are distinct: one of
/// them comes first.
proof fn lemma_key_less_total(dg: Seq<Seq<char>>, ids: Seq<Seq<char>>, a: int, b: int)
    requires
        ids[a] != ids[b],
    ensures
        key_less(dg, ids, a, b) || key_less(dg, ids, b, a),
{
    if dg[a] != dg[b] {
        lemma_lt_total(dg[a], dg[b]);
    } else {
        lemma_lt_total(ids[a], ids[b]);
    }
}

/// Two greedy rankings that agree on the nodes ranked below `r` agree on
/// all nodes.
proof fn lemma_rankings_agree_from(
    n: nat,
    es: Seq<usize>,
    ed: Seq<usize>,
    dg: Seq<Seq<char>>,
    ids: Seq<Seq<char>>,
    f: Seq<usize>,
    g: Seq<usize>,
    r: int,
)
    requires
        es.len() == ed.len(),
        forall|k: int| 0 <= k < es.len() ==> (es[k] as int) < n && (ed[k] as int) < n,
        forall|a: int, b: int| 0 <= a < b < n ==> ids[a] != ids[b],
        greedy_ranking(n, es, ed, dg, ids, f),
        greedy_ranking(n, es, ed, dg, ids, g),
        0 <= r <= n,
        forall|x: int| 0 <= x < n ==> ((#[trigger] f[x] as int) < r <==> (g[x] as int) < r),
        forall|x: int| 0 <= x < n && (#[trigger] f[x] as int) < r ==> f[x] == g[x],
    ensures
        forall|x: int| 0 <= x < n ==> #[trigger] f[x] == g[x],
    decreases n - r,
{
    if r < n {
        lemma_ranks_onto(n, f, r);
        lemma_ranks_onto(n, g, r);
        let x = choose|x: int| 0 <= x < n && f[x] as int == r;
        let y = choose|y: int| 0 <= y < n && g[y] as int == r;
        assert(avail(es, ed, g, x, r)) by {
            assert forall|k: int| 0 <= k < es.len() && ed[k] == x implies (g[es[k] as int] as int) < r by {
                assert(f.map_values(|v: usize| v as int)[es[k] as int] < f.map_values(|v: usize| v as int)[ed[k] as int]);
            }
        }
        assert(avail(es, ed, f, y, r)) by {
            assert forall|k: int| 0 <= k < es.len() && ed[k] == y implies (f[es[k] as int] as int) < r by {
                assert(g.map_values(|v: usize| v as int)[es[k] as int] < g.map_values(|v: usize| v as int)[ed[k] as int]);
            }
        }
        assert(!key_less(dg, ids, x, y));
        assert(!key_less(dg, ids, y, x));
        if x != y {
            if x < y {
                lemma_key_less_total(dg, ids, x, y);
            } else {
                lemma_key_less_total(dg, ids, y, x);
            }
        }
        assert forall|z: int| 0 <= z < n implies ((#[trigger] f[z] as int) < r + 1 <==> (g[z] as int) < r + 1) by {
            if z != x {
                if z < x {
                    assert(f[z] != f[x]);
                    assert(g[z] != g[x]);
                } else {
                    assert(f[x] != f[z]);
                    assert(g[x] != g[z]);
                }
            }
        }
        lemma_rankings_agree_from(n, es, ed, dg, ids, f, g, r + 1);
    } else {
        assert forall|x: int| 0 <= x < n implies #[trigger] f[x] == g[x] by {
            assert((f[x] as int) < n);
        }
    }
}

/// The greedy ranking is unique: with distinct identifiers, two greedy
/// rankings of the same graph are equal.
pub proof fn lemma_greedy_ranking_unique(
    n: nat,
    es: Seq<usize>,
    ed: Seq<usize>,
    dg: Seq<Seq<char>>,
    ids: Seq<Seq<char>>,
    f: Seq<usize>,
    g: Seq<usize>,
)
    requires
        es.len() == ed.len(),
        forall|k: int| 0 <= k < es.len() ==> (es[k] as int) < n && (ed[k] as int) < n,
        forall|a: int, b: int| 0 <= a < b < n ==> ids[a] != ids[b],
        greedy_ranking(n, es, ed, dg, ids, f),
        greedy_ranking(n, es, ed, dg, ids, g),
    ensures
        f == g,
{
    lemma_rankings_agree_from(n, es, ed, dg, ids, f, g, 0);
    assert(f =~= g);
}

/// The HDAG ranking of a graph is unique: the tie-break by digest and
/// identifier leaves no choice.
pub proof fn lemma_hdag_ranking_unique(g: GraphView, f1: Seq<usize>, f2: Seq<usize>)
    requires
        uir_violation(g) is None,
        hdag_ranking(g, f1),
        hdag_ranking(g, f2),
    ensures
        f1 == f2,
{
    lemma_valid_graph(g);
    assert forall|k: int| 0 <= k < edge_sources(g).len() implies (edge_sources(g)[k] as int) < g.nodes.len()
        && (edge_targets(g)[k] as int) < g.nodes.len() by {
        let s = g.edges[k].src;
        let t = g.edges[k].dst;
        assert(node_ids(g).contains(s) && node_ids(g).contains(t));
        let si = choose|i: int| 0 <= i < node_ids(g).len() && node_ids(g)[i] == s;
        let ti = choose|i: int| 0 <= i < node_ids(g).len() && node_ids(g)[i] == t;
        assert(0 <= node_index(g, s) < g.nodes.len());
        assert(0 <= node_index(g, t) < g.nodes.len());
    }
    lemma_greedy_ranking_unique(
        g.nodes.len(),
        edge_sources(g),
        edge_targets(g),
        node_digests(g),
        node_ids(g),
        f1,
        f2,
    );
}

} // verus!
