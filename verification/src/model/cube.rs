//! The hypercube: coordinates in `1..=m` on `n` axes, and local moves.
use vstd::prelude::*;

use crate::errors::CoreError;
use crate::text::string_of;

verus! {

/// A cube of `n` axes with coordinates `1..=m`.
#[derive(Debug, Clone, PartialEq, Eq)]
pub struct CubeConfig {
    pub n: usize,
    pub m: u32,
}

/// A coordinate of the cube: arity `n`, every component in `1..=m`.
pub open spec fn valid_coord(c: Seq<u32>, n: nat, m: u32) -> bool {
    &&& c.len() == n
    &&& forall|i: int| 0 <= i < c.len() ==> 1 <= #[trigger] c[i] <= m
}

/// Checks a coordinate: its arity first, then its components.
pub fn validate_coord(coord: &[u32], cfg: &CubeConfig) -> (r: Result<(), CoreError>)
    ensures
        r is Ok <==> valid_coord(coord@, cfg.n as nat, cfg.m),
        r matches Err(e) ==> e is InvariantViolation && e->InvariantViolation_0@ == (if coord@.len() != cfg.n {
            "coord arity mismatch"@
        } else {
            "coord outside 1..=m domain"@
        }),
{
    if coord.len() != cfg.n {
        return Err(CoreError::InvariantViolation(string_of("coord arity mismatch")));
    }
    for i in 0..coord.len()
        invariant
            coord@.len() == cfg.n,
            forall|k: int| 0 <= k < i ==> 1 <= #[trigger] coord@[k] <= cfg.m,
    {
        if coord[i] == 0 || coord[i] > cfg.m {
            return Err(CoreError::InvariantViolation(string_of("coord outside 1..=m domain")));
        }
    }
    Ok(())
}

/// The local moves from `c` over its first `k` axes: for each axis, first
/// the step down (when above 1), then the step up (when below `m`).
pub open spec fn moves(c: Seq<u32>, m: u32, k: nat) -> Seq<Seq<u32>>
    decreases k,
{
    if k == 0 {
        seq![]
    } else {
        let i = k - 1;
        moves(c, m, (k - 1) as nat) + (if c[i] > 1 {
            seq![c.update(i, (c[i] - 1) as u32)]
        } else {
            seq![]
        }) + (if c[i] < m {
            seq![c.update(i, (c[i] + 1) as u32)]
        } else {
            seq![]
        })
    }
}

/// The neighbours of a valid coordinate.
pub fn neighbors_local_moves(coord: &[u32], cfg: &CubeConfig) -> (r: Result<Vec<Vec<u32>>, CoreError>)
    ensures
        r is Ok <==> valid_coord(coord@, cfg.n as nat, cfg.m),
        r matches Err(e) ==> e is InvariantViolation && e->InvariantViolation_0@ == (if coord@.len() != cfg.n {
            "coord arity mismatch"@
        } else {
            "coord outside 1..=m domain"@
        }),
        r matches Ok(out) ==> out@.map_values(|v: Vec<u32>| v@) == moves(coord@, cfg.m, cfg.n as nat),
{
    validate_coord(coord, cfg)?;
    let mut out: Vec<Vec<u32>> = Vec::new();
    for i in 0..cfg.n
        invariant
            coord@.len() == cfg.n,
            out@.map_values(|v: Vec<u32>| v@) == moves(coord@, cfg.m, i as nat),
    {
        let ghost before = out@.map_values(|v: Vec<u32>| v@);
        if coord[i] > 1 {
            let mut c = vstd::slice::slice_to_vec(coord);
            c.set(i, coord[i] - 1);
            out.push(c);
        }
        let ghost mid = out@.map_values(|v: Vec<u32>| v@);
        if coord[i] < cfg.m {
            let mut c = vstd::slice::slice_to_vec(coord);
            c.set(i, coord[i] + 1);
            out.push(c);
        }
        proof {
            let k = i as int;
            let down = if coord@[k] > 1 {
                seq![coord@.update(k, (coord@[k] - 1) as u32)]
            } else {
                seq![]
            };
            let up = if coord@[k] < cfg.m {
                seq![coord@.update(k, (coord@[k] + 1) as u32)]
            } else {
                seq![]
            };
            assert(mid =~= before + down);
            assert(out@.map_values(|v: Vec<u32>| v@) =~= before + down + up);
        }
    }
    Ok(out)
}

/// Number of axes on which two coordinates of equal arity differ, among the
/// first `k`.
pub open spec fn diff_axes(a: Seq<u32>, b: Seq<u32>, k: nat) -> nat
    decreases k,
{
    if k == 0 {
        0
    } else {
        diff_axes(a, b, (k - 1) as nat) + (if a[k - 1] != b[k - 1] {
            1nat
        } else {
            0nat
        })
    }
}

/// Checks that a move changes exactly one axis.
pub fn enforce_local_move(a: &[u32], b: &[u32]) -> (r: Result<(), CoreError>)
    ensures
        r is Ok <==> a@.len() == b@.len() && diff_axes(a@, b@, a@.len()) == 1,
        r matches Err(e) ==> e is InvariantViolation && e->InvariantViolation_0@ == (if a@.len() != b@.len() {
            "local move arity mismatch"@
        } else {
            "local move must differ in exactly one axis"@
        }),
{
    if a.len() != b.len() {
        return Err(CoreError::InvariantViolation(string_of("local move arity mismatch")));
    }
    let mut count: usize = 0;
    for i in 0..a.len()
        invariant
            a@.len() == b@.len(),
            count == diff_axes(a@, b@, i as nat),
            count <= i,
    {
        if a[i] != b[i] {
            count = count + 1;
        }
    }
    if count != 1 {
        return Err(CoreError::InvariantViolation(string_of("local move must differ in exactly one axis")));
    }
    Ok(())
}

proof fn lemma_diff_axes_update(c: Seq<u32>, j: int, x: u32, k: nat)
    requires
        0 <= j < c.len(),
        k <= c.len(),
        x != c[j],
    ensures
        diff_axes(c, c.update(j, x), k) == (if j < k {
            1nat
        } else {
            0nat
        }),
    decreases k,
{
    if k > 0 {
        lemma_diff_axes_update(c, j, x, (k - 1) as nat);
    }
}

/// Every neighbour of a valid coordinate is a valid coordinate that differs
/// from it on exactly one axis.
pub proof fn lemma_neighbors_are_local_moves(c: Seq<u32>, n: nat, m: u32, k: nat)
    requires
        valid_coord(c, n, m),
        k <= n,
    ensures
        forall|i: int| 0 <= i < moves(c, m, k).len() ==> {
            &&& valid_coord(#[trigger] moves(c, m, k)[i], n, m)
            &&& diff_axes(c, moves(c, m, k)[i], n) == 1
        },
    decreases k,
{
    if k > 0 {
        let j = k - 1;
        lemma_neighbors_are_local_moves(c, n, m, (k - 1) as nat);
        let prev = moves(c, m, (k - 1) as nat);
        if c[j] > 1 {
            lemma_diff_axes_update(c, j, (c[j] - 1) as u32, n);
        }
        if c[j] < m {
            lemma_diff_axes_update(c, j, (c[j] + 1) as u32, n);
        }
        assert forall|i: int| 0 <= i < moves(c, m, k).len() implies {
            &&& valid_coord(#[trigger] moves(c, m, k)[i], n, m)
            &&& diff_axes(c, moves(c, m, k)[i], n) == 1
        } by {
            if i < prev.len() {
                assert(moves(c, m, k)[i] == prev[i]);
            }
        }
    }
}

/// `d` is `c` moved by one step on one axis.
pub open spec fn unit_move(c: Seq<u32>, d: Seq<u32>) -> bool {
    exists|j: int, x: u32|
        0 <= j < c.len() && (x == c[j] + 1 || x + 1 == c[j]) && #[trigger] c.update(j, x) == d
}

/// How many axes among the first `k` allow a step down, and a step up.
pub open spec fn move_count(c: Seq<u32>, m: u32, k: nat) -> nat
    decreases k,
{
    if k == 0 {
        0
    } else {
        move_count(c, m, (k - 1) as nat) + (if c[k - 1] > 1 {
            1nat
        } else {
            0nat
        }) + (if c[k - 1] < m {
            1nat
        } else {
            0nat
        })
    }
}

/// Entry `i` of the moves over the first `k` axes changes `c` on one of
/// those axes only.
spec fn moved_on(c: Seq<u32>, m: u32, k: nat, i: int, j: int) -> bool {
    0 <= j < k && moves(c, m, k)[i] == c.update(j, moves(c, m, k)[i][j]) && moves(c, m, k)[i][j] != c[j]
}

spec fn has_axis(c: Seq<u32>, m: u32, k: nat, i: int) -> bool {
    exists|j: int| #[trigger] moved_on(c, m, k, i, j)
}

proof fn lemma_moves_shape(c: Seq<u32>, m: u32, k: nat)
    requires
        k <= c.len(),
    ensures
        moves(c, m, k).len() == move_count(c, m, k),
        forall|i: int| 0 <= i < moves(c, m, k).len() ==> #[trigger] has_axis(c, m, k, i),
        forall|a: int, b: int| 0 <= a < b < moves(c, m, k).len() ==> moves(c, m, k)[a] != moves(c, m, k)[b],
    decreases k,
{
    if k > 0 {
        let j = k - 1;
        let prev = moves(c, m, (k - 1) as nat);
        let all = moves(c, m, k);
        lemma_moves_shape(c, m, (k - 1) as nat);
        assert forall|i: int| 0 <= i < all.len() implies #[trigger] has_axis(c, m, k, i) by {
            if i < prev.len() {
                assert(has_axis(c, m, (k - 1) as nat, i));
                let a = choose|a: int| #[trigger] moved_on(c, m, (k - 1) as nat, i, a);
                assert(all[i] == prev[i]);
                assert(moved_on(c, m, k, i, a));
            } else {
                assert(all[i][j] != c[j]);
                assert(all[i] =~= c.update(j, all[i][j]));
                assert(moved_on(c, m, k, i, j as int));
            }
        }
        assert forall|a: int, b: int| 0 <= a < b < all.len() implies all[a] != all[b] by {
            if b < prev.len() {
                assert(all[a] == prev[a] && all[b] == prev[b]);
            } else if a < prev.len() {
                assert(has_axis(c, m, (k - 1) as nat, a));
                let x = choose|x: int| #[trigger] moved_on(c, m, (k - 1) as nat, a, x);
                assert(all[a] == prev[a]);
                assert(prev[a][j] == c[j]);
                assert(all[b][j] != c[j]);
            } else {
                assert(all[a][j] != all[b][j]);
            }
        }
    }
}

proof fn lemma_moves_complete(c: Seq<u32>, m: u32, k: nat, j: int, x: u32)
    requires
        k <= c.len(),
        0 <= j < k,
        x == c[j] + 1 || x + 1 == c[j],
        1 <= x <= m,
    ensures
        moves(c, m, k).contains(c.update(j, x)),
    decreases k,
{
    let prev = moves(c, m, (k - 1) as nat);
    let all = moves(c, m, k);
    if j < k - 1 {
        lemma_moves_complete(c, m, (k - 1) as nat, j, x);
        let i = choose|i: int| 0 <= i < prev.len() && prev[i] == c.update(j, x);
        assert(all[i] == prev[i]);
    } else {
        let down = if c[j] > 1 {
            seq![c.update(j, (c[j] - 1) as u32)]
        } else {
            seq![]
        };
        if x + 1 == c[j] {
            assert(all[prev.len() as int] == c.update(j, x));
        } else {
            assert(all[(prev.len() + down.len()) as int] == c.update(j, x));
        }
    }
}

/// The neighbours of a valid coordinate are exactly the valid coordinates
/// one step away on one axis, each once; there is one per axis whose
/// component can step down and one per axis whose component can step up;
/// each passes `enforce_local_move` (same arity, one differing axis).
pub proof fn lemma_neighbors_exactly_unit_moves(c: Seq<u32>, n: nat, m: u32, d: Seq<u32>)
    requires
        valid_coord(c, n, m),
    ensures
        moves(c, m, n).contains(d) <==> valid_coord(d, n, m) && unit_move(c, d),
        moves(c, m, n).len() == move_count(c, m, n),
        forall|a: int, b: int| 0 <= a < b < moves(c, m, n).len() ==> moves(c, m, n)[a] != moves(c, m, n)[b],
        forall|i: int|
            0 <= i < moves(c, m, n).len() ==> (#[trigger] moves(c, m, n)[i]).len() == c.len() && diff_axes(
                c,
                moves(c, m, n)[i],
                c.len(),
            ) == 1,
{
    lemma_moves_shape(c, m, n);
    lemma_neighbors_are_local_moves(c, n, m, n);
    let ms = moves(c, m, n);
    if ms.contains(d) {
        let i = choose|i: int| 0 <= i < ms.len() && ms[i] == d;
        assert(has_axis(c, m, n, i));
        let j = choose|j: int| #[trigger] moved_on(c, m, n, i, j);
        let x = d[j];
        assert(valid_coord(ms[i], n, m));
        assert(x == c[j] + 1 || x + 1 == c[j]) by {
            lemma_move_values(c, m, n, i);
        }
        assert(c.update(j, x) == d);
    }
    if valid_coord(d, n, m) && unit_move(c, d) {
        let (j, x) = choose|j: int, x: u32|
            0 <= j < c.len() && (x == c[j] + 1 || x + 1 == c[j]) && #[trigger] c.update(j, x) == d;
        assert(d[j] == x);
        lemma_moves_complete(c, m, n, j, x);
    }
}

/// Each move steps one component by one.
proof fn lemma_move_values(c: Seq<u32>, m: u32, k: nat, i: int)
    requires
        k <= c.len(),
        0 <= i < moves(c, m, k).len(),
    ensures
        forall|j: int|
            0 <= j < c.len() && moves(c, m, k)[i][j] != c[j] ==> moves(c, m, k)[i][j] == c[j] + 1 || moves(
                c,
                m,
                k,
            )[i][j] + 1 == c[j],
    decreases k,
{
    let prev = moves(c, m, (k - 1) as nat);
    if i < prev.len() {
        lemma_move_values(c, m, (k - 1) as nat, i);
        assert(moves(c, m, k)[i] == prev[i]);
    }
}

} // verus!
