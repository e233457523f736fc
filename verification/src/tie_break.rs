//! Ordering scored values: highest score first, ties broken by the digest
//! of the payload, equal keys kept in their original order.
use vstd::prelude::*;

use crate::canon_jcs::{order_view, strings_view};
use crate::digest::{digest_sha256_jcs, json_digest};
use crate::errors::CoreError;
use crate::json::Json;
use crate::order::{is_permutation, lemma_lt_irreflexive, lemma_lt_transitive};
use crate::rd::RunDescriptor;
use crate::text::{key_lt, str_eq, str_lt};
use crate::types::ScoredValue;

verus! {

/// Position `a` comes strictly before position `b`: a higher score, or an
/// equal score and a smaller digest.
pub open spec fn score_before(s: Seq<i64>, d: Seq<Seq<char>>, a: int, b: int) -> bool {
    s[a] > s[b] || (s[a] == s[b] && key_lt(d[a], d[b]))
}

/// No position of `o` comes strictly before an earlier one.
pub open spec fn score_sorted(o: Seq<int>, s: Seq<i64>, d: Seq<Seq<char>>) -> bool {
    forall|i: int, j: int| 0 <= i < j < o.len() ==> !score_before(s, d, #[trigger] o[j], #[trigger] o[i])
}

/// Positions with equal score and digest keep their original order.
pub open spec fn score_stable(o: Seq<int>, s: Seq<i64>, d: Seq<Seq<char>>) -> bool {
    forall|i: int, j: int|
        0 <= i < j < o.len() && s[#[trigger] o[i]] == s[#[trigger] o[j]] && d[o[i]] == d[o[j]] ==> o[i] < o[j]
}

/// `o` is the stable order of `n` positions by descending score, then
/// ascending digest.
pub open spec fn score_order(o: Seq<int>, s: Seq<i64>, d: Seq<Seq<char>>, n: nat) -> bool {
    &&& is_permutation(o, n)
    &&& score_sorted(o, s, d)
    &&& score_stable(o, s, d)
}

/// The first position `p >= j` of `o` whose entry position `k` comes
/// strictly before (the length of `o` when there is none).
pub open spec fn first_preceded(o: Seq<int>, s: Seq<i64>, d: Seq<Seq<char>>, k: int, j: int) -> int
    decreases o.len() - j,
{
    if 0 <= j < o.len() && !score_before(s, d, k, o[j]) {
        first_preceded(o, s, d, k, j + 1)
    } else {
        j
    }
}

/// The score order of the first `n` positions: each position inserted
/// before the first earlier-placed one that it comes strictly before.
pub open spec fn score_rank(s: Seq<i64>, d: Seq<Seq<char>>, n: nat) -> Seq<int>
    decreases n,
{
    if n == 0 {
        seq![]
    } else {
        let o = score_rank(s, d, (n - 1) as nat);
        o.insert(first_preceded(o, s, d, n - 1, 0), n - 1)
    }
}

proof fn lemma_first_preceded(o: Seq<int>, s: Seq<i64>, d: Seq<Seq<char>>, k: int, j: int)
    requires
        0 <= j <= o.len(),
    ensures
        j <= first_preceded(o, s, d, k, j) <= o.len(),
        forall|m: int| j <= m < first_preceded(o, s, d, k, j) ==> !score_before(s, d, k, #[trigger] o[m]),
        first_preceded(o, s, d, k, j) < o.len() ==> score_before(s, d, k, o[first_preceded(o, s, d, k, j)]),
    decreases o.len() - j,
{
    if j < o.len() && !score_before(s, d, k, o[j]) {
        lemma_first_preceded(o, s, d, k, j + 1);
    }
}

/// The score order lists every position once, highest score first, equal
/// scores by ascending digest, and equal keys in their original order.
pub proof fn lemma_score_rank_orders(s: Seq<i64>, d: Seq<Seq<char>>, n: nat)
    requires
        n <= s.len(),
        n <= d.len(),
    ensures
        score_order(score_rank(s, d, n), s, d, n),
    decreases n,
{
    if n > 0 {
        let o = score_rank(s, d, (n - 1) as nat);
        lemma_score_rank_orders(s, d, (n - 1) as nat);
        lemma_first_preceded(o, s, d, n - 1, 0);
        lemma_insert_ordered(o, s, d, n - 1, first_preceded(o, s, d, n - 1, 0));
    }
}

proof fn lemma_before_facts(s: Seq<i64>, d: Seq<Seq<char>>, a: int, b: int, c: int)
    ensures
        !score_before(s, d, a, a),
        score_before(s, d, a, b) && score_before(s, d, b, c) ==> score_before(s, d, a, c),
{
    lemma_lt_irreflexive(d[a]);
    if score_before(s, d, a, b) && score_before(s, d, b, c) && s[a] == s[b] && s[b] == s[c] {
        lemma_lt_transitive(d[a], d[b], d[c]);
    }
}

/// Inserting position `k` before the first position that it precedes keeps
/// the order sorted and stable.
proof fn lemma_insert_ordered(o: Seq<int>, s: Seq<i64>, d: Seq<Seq<char>>, k: int, j: int)
    requires
        0 <= k,
        k < s.len(),
        k < d.len(),
        is_permutation(o, k as nat),
        score_sorted(o, s, d),
        score_stable(o, s, d),
        0 <= j <= o.len(),
        forall|m: int| 0 <= m < j ==> !score_before(s, d, k, #[trigger] o[m]),
        j < o.len() ==> score_before(s, d, k, o[j]),
    ensures
        score_order(o.insert(j, k), s, d, (k + 1) as nat),
{
    let o2 = o.insert(j, k);
    assert forall|a: int, b: int| 0 <= a < b < o2.len() implies !score_before(s, d, #[trigger] o2[b], #[trigger] o2[a]) by {
        if a == j {
            let x = o[b - 1];
            if score_before(s, d, x, k) {
                lemma_before_facts(s, d, x, k, o[j]);
                lemma_before_facts(s, d, x, x, x);
                if b - 1 > j {
                    assert(!score_before(s, d, o[b - 1], o[j]));
                }
            }
        } else if b == j {
            assert(o2[a] == o[a]);
        } else {
            let a1 = if a < j { a } else { a - 1 };
            let b1 = if b < j { b } else { b - 1 };
            assert(o2[a] == o[a1] && o2[b] == o[b1]);
            assert(!score_before(s, d, o[b1], o[a1]));
        }
    }
    assert forall|a: int, b: int|
        0 <= a < b < o2.len() && s[#[trigger] o2[a]] == s[#[trigger] o2[b]] && d[o2[a]] == d[o2[b]] implies o2[a] < o2[b] by {
        if a == j {
            let x = o[b - 1];
            assert(score_before(s, d, x, o[j]));
            lemma_before_facts(s, d, x, x, x);
            if b - 1 > j {
                assert(!score_before(s, d, o[b - 1], o[j]));
            }
        } else if b == j {
            assert(o2[a] == o[a]);
            assert(o.contains(o[a]));
        } else {
            let a1 = if a < j { a } else { a - 1 };
            let b1 = if b < j { b } else { b - 1 };
            assert(o2[a] == o[a1] && o2[b] == o[b1]);
        }
    }
    assert forall|x: int| 0 <= x < k + 1 implies o2.contains(x) by {
        if x == k {
            assert(o2[j] == k);
        } else {
            assert(o.contains(x));
            let m = choose|m: int| 0 <= m < o.len() && o[m] == x;
            if m < j {
                assert(o2[m] == x);
            } else {
                assert(o2[m + 1] == x);
            }
        }
    }
    assert forall|a: int, b: int| 0 <= a < b < o2.len() implies o2[a] != o2[b] by {
        if a != j && b != j {
            let a1 = if a < j { a } else { a - 1 };
            let b1 = if b < j { b } else { b - 1 };
            assert(o2[a] == o[a1] && o2[b] == o[b1]);
        } else if a == j {
            assert(o2[b] == o[b - 1]);
        } else {
            assert(o2[a] == o[a]);
        }
    }
}

/// Whether position `a` comes strictly before position `b`.
fn before(scores: &Vec<i64>, dg: &Vec<String>, a: usize, b: usize) -> (r: bool)
    requires
        a < scores@.len(),
        b < scores@.len(),
        scores@.len() == dg@.len(),
    ensures
        r == score_before(scores@, strings_view(dg@), a as int, b as int),
{
    scores[a] > scores[b] || (scores[a] == scores[b] && str_lt(dg[a].as_str(), dg[b].as_str()))
}

/// The stable order of the positions by descending score, then ascending
/// digest (an insertion sort).
#[verifier::loop_isolation(false)]
pub fn score_order_of(scores: &Vec<i64>, dg: &Vec<String>) -> (o: Vec<usize>)
    requires
        scores@.len() == dg@.len(),
    ensures
        order_view(o@) == score_rank(scores@, strings_view(dg@), scores@.len() as nat),
        o@.len() == scores@.len(),
        forall|i: int| 0 <= i < o@.len() ==> #[trigger] o@[i] < scores@.len(),
{
    let ghost s = scores@;
    let ghost d = strings_view(dg@);
    let n = scores.len();
    let mut order: Vec<usize> = Vec::new();
    for k in 0..n
        invariant
            order@.len() == k,
            order_view(order@) == score_rank(s, d, k as nat),
            forall|i: int| 0 <= i < order@.len() ==> #[trigger] order@[i] < k,
    {
        let ghost ov = order_view(order@);
        let mut j: usize = 0;
        while j < order.len() && !before(scores, dg, k, order[j])
            invariant
                j <= order@.len(),
                ov == order_view(order@),
                first_preceded(ov, s, d, k as int, 0) == first_preceded(ov, s, d, k as int, j as int),
            decreases order@.len() - j,
        {
            j = j + 1;
        }
        assert(first_preceded(ov, s, d, k as int, j as int) == j);
        let ghost before_ins = order@;
        order.insert(j, k);
        proof {
            assert(order@ == before_ins.insert(j as int, k));
            assert(order_view(order@) =~= ov.insert(j as int, k as int));
        }
    }
    order
}

pub open spec fn scores_of(v: Seq<ScoredValue>) -> Seq<i64> {
    v.map_values(|x: ScoredValue| x.score)
}

/// The payload digests (meaningful where every payload has one).
pub open spec fn payload_digests(v: Seq<ScoredValue>) -> Seq<Seq<char>> {
    v.map_values(|x: ScoredValue| json_digest(x.payload@).unwrap())
}

pub open spec fn all_payloads_digestible(v: Seq<ScoredValue>) -> bool {
    forall|i: int| 0 <= i < v.len() ==> (#[trigger] json_digest(v[i].payload@)) is Some
}

/// Sorts `values` by descending score, ties by ascending digest of the
/// payload, equal keys in their original order. Fails, leaving `values`
/// unchanged, when some payload has no digest.
#[verifier::loop_isolation(false)]
pub fn sort_by_score_then_digest(values: &mut Vec<ScoredValue>, rd: &RunDescriptor) -> (r: Result<(), CoreError>)
    ensures
        r is Ok,
        r is Ok <==> all_payloads_digestible(old(values)@),
        r matches Err(e) ==> e is NumberCanonicalizationFailed && final(values)@ == old(values)@,
        r is Ok ==> {
            let o = score_rank(scores_of(old(values)@), payload_digests(old(values)@), old(values)@.len() as nat);
            &&& final(values)@.len() == old(values)@.len()
            &&& forall|i: int| 0 <= i < o.len() ==> (#[trigger] final(values)@[i]).score == old(values)@[o[i]].score
                && final(values)@[i].payload@ == old(values)@[o[i]].payload@
        },
{
    let ghost v0 = values@;
    let n = values.len();
    let mut dg: Vec<String> = Vec::new();
    let mut sc: Vec<i64> = Vec::new();
    for i in 0..n
        invariant
            values@ == v0,
            dg@.len() == i,
            sc@.len() == i,
            forall|j: int| 0 <= j < i ==> json_digest(#[trigger] v0[j].payload@) == Some(dg@[j]@),
            forall|j: int| 0 <= j < i ==> #[trigger] sc@[j] == v0[j].score,
    {
        match digest_sha256_jcs(&values[i].payload, rd) {
            Ok(d) => {
                dg.push(d);
            },
            Err(e) => {
                return Err(e);
            },
        }
        sc.push(values[i].score);
    }
    assert(sc@ =~= scores_of(v0));
    assert(strings_view(dg@) =~= payload_digests(v0));
    let o = score_order_of(&sc, &dg);
    let ghost ov = order_view(o@);
    let mut out: Vec<ScoredValue> = Vec::new();
    for m in 0..n
        invariant
            values@ == v0,
            o@.len() == n,
            forall|i: int| 0 <= i < o@.len() ==> #[trigger] o@[i] < n,
            ov == order_view(o@),
            out@.len() == m,
            forall|i: int| #![trigger out@[i]] 0 <= i < m ==> out@[i].score == v0[ov[i]].score && out@[i].payload@ == v0[ov[i]].payload@,
    {
        let idx = o[m];
        assert(ov[m as int] == idx as int);
        let item = ScoredValue { score: values[idx].score, payload: values[idx].payload.deep_clone() };
        out.push(item);
    }
    *values = out;
    Ok(())
}

} // verus!
