//! The R5 observer: three residues read from the digest of a trace's last
//! entries, one from each residue class of byte positions mod 3.
use vstd::prelude::*;

use crate::digest::{digest_sha256_jcs, digest_shape, json_digest, lemma_digest_ascii};
use crate::evidence::lemma_float_free_digest;
use crate::rd::RunDescriptor;
use crate::text::string_of;
use crate::trace::{lemma_trace_float_free, trace_json, trace_to_json, TraceEntry};
use vstd::string::StrSliceExecFns;
use vstd::utf8::encode_utf8;

verus! {

/// The sum of the bytes at positions `p < k` with `p mod 3 == r`.
pub open spec fn stride_sum(b: Seq<u8>, r: int, k: int) -> int
    decreases k,
{
    if k <= 0 {
        0
    } else {
        stride_sum(b, r, k - 1) + (if (k - 1) % 3 == r {
            b[k - 1] as int
        } else {
            0
        })
    }
}

/// The last `n` entries of a trace (all of them when there are fewer).
pub open spec fn r5_window(t: Seq<TraceEntry>, n: nat) -> Seq<TraceEntry> {
    t.skip(if t.len() < n {
        0
    } else {
        t.len() - n
    })
}

/// The three residues: the stride sums of the window digest's bytes, each
/// mod 10000.
pub open spec fn r5_residues(t: Seq<TraceEntry>, n: nat) -> (u64, u64, u64) {
    let b = encode_utf8(json_digest(trace_json(r5_window(t, n))).unwrap());
    (
        (stride_sum(b, 0, b.len() as int) % 10000) as u64,
        (stride_sum(b, 1, b.len() as int) % 10000) as u64,
        (stride_sum(b, 2, b.len() as int) % 10000) as u64,
    )
}

/// The residues depend on the trace only through its window: two traces
/// whose last `n` entries agree are observed alike.
pub proof fn lemma_r5_depends_on_window(t1: Seq<TraceEntry>, t2: Seq<TraceEntry>, n: nat)
    requires
        r5_window(t1, n) == r5_window(t2, n),
    ensures
        r5_residues(t1, n) == r5_residues(t2, n),
{
}

/// Observing only the window gives the same residues as observing the
/// whole trace, and each residue lies below 10000.
pub proof fn lemma_r5_suffix(t: Seq<TraceEntry>, n: nat)
    ensures
        r5_residues(r5_window(t, n), n) == r5_residues(t, n),
        r5_residues(t, n).0 < 10000,
        r5_residues(t, n).1 < 10000,
        r5_residues(t, n).2 < 10000,
{
    let w = r5_window(t, n);
    assert(r5_window(w, n) =~= w);
    let b = encode_utf8(json_digest(trace_json(w)).unwrap());
    lemma_stride_sum_bound(b, 0, b.len() as int);
    lemma_stride_sum_bound(b, 1, b.len() as int);
    lemma_stride_sum_bound(b, 2, b.len() as int);
}

/// The window holds the last `min(n, |t|)` entries of the trace.
pub proof fn lemma_r5_window(t: Seq<TraceEntry>, n: nat)
    ensures
        r5_window(t, n).len() == (if t.len() < n {
            t.len()
        } else {
            n
        }),
        forall|i: int|
            0 <= i < r5_window(t, n).len() ==> #[trigger] r5_window(t, n)[i] == t[t.len() - r5_window(t, n).len() + i],
{
}

proof fn lemma_stride_sum_bound(b: Seq<u8>, r: int, k: int)
    requires
        0 <= k,
    ensures
        0 <= stride_sum(b, r, k) <= 255 * k,
    decreases k,
{
    if k > 0 {
        lemma_stride_sum_bound(b, r, k - 1);
    }
}

/// The R5 residues of the last `n` entries of `trace` (psi, rho, omega).
pub fn observe_r5_residues(trace: &Vec<TraceEntry>, rd: &RunDescriptor, n: usize) -> (r: (u64, u64, u64))
    ensures
        json_digest(trace_json(r5_window(trace@, n as nat))) is Some,
        r == r5_residues(trace@, n as nat),
{
    let len = trace.len();
    let start: usize = if len < n {
        0
    } else {
        len - n
    };
    let mut window: Vec<TraceEntry> = Vec::new();
    let mut i: usize = start;
    while i < len
        invariant
            start <= i <= len,
            len == trace@.len(),
            window@ == trace@.subrange(start as int, i as int),
        decreases len - i,
    {
        window.push(trace[i].copy());
        i = i + 1;
    }
    assert(window@ =~= r5_window(trace@, n as nat));
    let tj = trace_to_json(&window);
    proof {
        lemma_trace_float_free(window@);
        lemma_float_free_digest(tj@);
    }
    let dig = match digest_sha256_jcs(&tj, rd) {
        Ok(d) => d,
        Err(_) => string_of("sha256:0"),
    };
    proof {
        lemma_digest_ascii(dig@);
    }
    let bytes = dig.as_str().as_bytes_vec();
    let mut s: [u64; 3] = [0; 3];
    let mut p: usize = 0;
    while p < bytes.len()
        invariant
            p <= bytes@.len(),
            bytes@.len() == 71,
            s@.len() == 3,
            forall|r: int| 0 <= r < 3 ==> #[trigger] s@[r] == stride_sum(bytes@, r, p as int),
        decreases bytes@.len() - p,
    {
        proof {
            lemma_stride_sum_bound(bytes@, (p % 3) as int, p as int);
        }
        let k = p % 3;
        let v = s[k] + bytes[p] as u64;
        s[k] = v;
        p = p + 1;
    }
    (s[0] % 10000, s[1] % 10000, s[2] % 10000)
}

} // verus!
