//! Facts about code-point order and the stable key order used both for the
//! members of canonical JSON objects and for canonical UIR element order.
use vstd::prelude::*;

use crate::canon_jcs::{first_greater, key_order, lemma_first_greater_range, lemma_key_order};
use crate::text::key_lt;

verus! {

pub proof fn lemma_lt_irreflexive(a: Seq<char>)
    ensures
        !key_lt(a, a),
    decreases a.len(),
{
    if a.len() > 0 {
        lemma_lt_irreflexive(a.drop_first());
    }
}

pub proof fn lemma_lt_transitive(a: Seq<char>, b: Seq<char>, c: Seq<char>)
    requires
        key_lt(a, b),
        key_lt(b, c),
    ensures
        key_lt(a, c),
    decreases a.len(),
{
    if a.len() > 0 && b.len() > 0 && c.len() > 0 {
        if a[0] == b[0] && b[0] == c[0] {
            lemma_lt_transitive(a.drop_first(), b.drop_first(), c.drop_first());
        }
    }
}

pub proof fn lemma_lt_total(a: Seq<char>, b: Seq<char>)
    requires
        a != b,
    ensures
        key_lt(a, b) || key_lt(b, a),
    decreases a.len(),
{
    if a.len() > 0 && b.len() > 0 && a[0] == b[0] {
        if a.drop_first() == b.drop_first() {
            assert(a =~= seq![a[0]] + a.drop_first());
            assert(b =~= seq![b[0]] + b.drop_first());
        }
        lemma_lt_total(a.drop_first(), b.drop_first());
    } else if a.len() > 0 && b.len() > 0 {
        assert((a[0] as int) != (b[0] as int));
    } else if a.len() == 0 && b.len() == 0 {
        assert(a =~= b);
    }
}

pub proof fn lemma_lt_asymmetric(a: Seq<char>, b: Seq<char>)
    requires
        key_lt(a, b),
    ensures
        !key_lt(b, a),
{
    if key_lt(b, a) {
        lemma_lt_transitive(a, b, a);
        lemma_lt_irreflexive(a);
    }
}

/// `o` lists positions in non-decreasing key order.
pub open spec fn sorted_by_key(o: Seq<int>, keys: Seq<Seq<char>>) -> bool {
    forall|i: int, j: int| 0 <= i < j < o.len() ==> !key_lt(keys[o[j]], keys[o[i]])
}

/// Among equal keys, `o` keeps positions in increasing order.
pub open spec fn stable_by_key(o: Seq<int>, keys: Seq<Seq<char>>) -> bool {
    forall|i: int, j: int|
        0 <= i < j < o.len() && keys[o[i]] == keys[o[j]] ==> o[i] < o[j]
}

/// `o` is a permutation of `0..n`.
pub open spec fn is_permutation(o: Seq<int>, n: nat) -> bool {
    &&& o.len() == n
    &&& forall|i: int, j: int| 0 <= i < j < o.len() ==> o[i] != o[j]
    &&& forall|i: int| 0 <= i < o.len() ==> 0 <= #[trigger] o[i] < n
    &&& forall|x: int| 0 <= x < n ==> o.contains(x)
}

proof fn lemma_first_greater_facts(o: Seq<int>, keys: Seq<Seq<char>>, k: Seq<char>, j: int)
    requires
        0 <= j <= o.len(),
    ensures
        forall|m: int| j <= m < first_greater(o, keys, k, j) ==> !key_lt(k, keys[o[m]]),
        first_greater(o, keys, k, j) < o.len() ==> key_lt(k, keys[o[first_greater(o, keys, k, j)]]),
    decreases o.len() - j,
{
    if j < o.len() && !key_lt(k, keys[o[j]]) {
        lemma_first_greater_facts(o, keys, k, j + 1);
    }
}

/// The stable key order of `n` keys is a permutation of `0..n` that lists
/// positions by non-decreasing key, and equal keys in their original order.
pub proof fn lemma_key_order_sorts(keys: Seq<Seq<char>>, n: nat)
    requires
        n <= keys.len(),
    ensures
        is_permutation(key_order(keys, n), n),
        sorted_by_key(key_order(keys, n), keys),
        stable_by_key(key_order(keys, n), keys),
    decreases n,
{
    lemma_key_order(keys, n);
    if n > 0 {
        let o = key_order(keys, (n - 1) as nat);
        lemma_key_order_sorts(keys, (n - 1) as nat);
        let k = keys[n - 1];
        let p = first_greater(o, keys, k, 0);
        lemma_first_greater_range(o, keys, k, 0);
        lemma_first_greater_facts(o, keys, k, 0);
        let r = o.take(p) + seq![(n - 1) as int] + o.skip(p);
        assert(r == key_order(keys, n));
        assert forall|i: int| 0 <= i < r.len() implies #[trigger] r[i] == (if i < p {
            o[i]
        } else if i == p {
            (n - 1) as int
        } else {
            o[i - 1]
        }) by {}
        // keys before p are <= k; keys from p on are > k
        assert forall|i: int| 0 <= i < p implies !key_lt(k, #[trigger] keys[r[i]]) by {}
        assert forall|i: int| p < i < r.len() implies key_lt(k, #[trigger] keys[r[i]]) by {
            let x = keys[o[p]];
            let y = keys[o[i - 1]];
            if p < i - 1 {
                assert(!key_lt(y, x));
                if x != y {
                    lemma_lt_total(x, y);
                    lemma_lt_transitive(k, x, y);
                }
            }
        }
        assert forall|i: int, j: int| 0 <= i < j < r.len() implies !key_lt(keys[r[j]], keys[r[i]]) by {
            if j == p {
                let a = keys[r[i]];
                if key_lt(k, a) {
                } else if a != k {
                    lemma_lt_total(a, k);
                    lemma_lt_asymmetric(a, k);
                } else {
                    lemma_lt_irreflexive(k);
                }
            } else if i == p {
                lemma_lt_asymmetric(k, keys[r[j]]);
            } else if i < p && j > p {
                let a = keys[r[i]];
                let b = keys[r[j]];
                assert(key_lt(k, b));
                if key_lt(b, a) {
                    if a != k {
                        lemma_lt_total(a, k);
                        lemma_lt_transitive(b, a, k);
                    }
                    lemma_lt_asymmetric(k, b);
                }
            } else if i < p && j < p {
                assert(r[i] == o[i] && r[j] == o[j]);
            } else {
                assert(r[i] == o[i - 1] && r[j] == o[j - 1]);
            }
        }
        assert forall|i: int, j: int| 0 <= i < j < r.len() && keys[r[i]] == keys[r[j]] implies r[i] < r[j] by {
            if j == p {
            } else if i == p {
                lemma_lt_irreflexive(k);
            } else if i < p && j > p {
                lemma_lt_irreflexive(k);
            } else if i < p && j < p {
                assert(r[i] == o[i] && r[j] == o[j]);
            } else {
                assert(r[i] == o[i - 1] && r[j] == o[j - 1]);
            }
        }
        assert forall|i: int, j: int| 0 <= i < j < r.len() implies r[i] != r[j] by {
            if i < p && j > p {
                assert(r[i] == o[i] && r[j] == o[j - 1]);
            } else if i < p && j < p {
                assert(r[i] == o[i] && r[j] == o[j]);
            } else if i > p && j > p {
                assert(r[i] == o[i - 1] && r[j] == o[j - 1]);
            }
        }
        assert forall|x: int| 0 <= x < n implies r.contains(x) by {
            if x == n - 1 {
                assert(r[p] == x);
            } else {
                assert(o.contains(x));
                let i = choose|i: int| 0 <= i < o.len() && o[i] == x;
                if i < p {
                    assert(r[i] == x);
                } else {
                    assert(r[i + 1] == x);
                }
            }
        }
    }
}

} // verus!
