//! Replay checks: the first point where two traces diverge, and the
//! agreement of evidence with its manifest.
use vstd::prelude::*;

use crate::errors::CoreError;
use crate::evidence::Evidence;
use crate::manifest::ReplayManifest;
use crate::text::{str_eq, string_of};
use crate::trace::TraceEntry;

verus! {

/// Where and how two traces first diverge.
#[derive(Debug, Clone, PartialEq, Eq)]
pub struct FirstDivergence {
    pub step: u64,
    pub role: String,
    pub operator_name: String,
    pub expected_out_digest: String,
    pub actual_out_digest: String,
}

/// Two steps differ when their output or evidence digests differ.
pub open spec fn steps_differ(e: TraceEntry, a: TraceEntry) -> bool {
    e.out_digest@ != a.out_digest@ || e.op_evidence_digest@ != a.op_evidence_digest@
}

pub open spec fn min_len(e: Seq<TraceEntry>, a: Seq<TraceEntry>) -> int {
    if e.len() <= a.len() {
        e.len() as int
    } else {
        a.len() as int
    }
}

/// The traces agree on their first `n` steps.
pub open spec fn agree_before(e: Seq<TraceEntry>, a: Seq<TraceEntry>, n: int) -> bool {
    forall|j: int| 0 <= j < n ==> !steps_differ(#[trigger] e[j], a[j])
}

/// `i` is the first step, among those both traces have, at which they differ.
pub open spec fn first_diff(e: Seq<TraceEntry>, a: Seq<TraceEntry>, i: int) -> bool {
    &&& 0 <= i < min_len(e, a)
    &&& steps_differ(e[i], a[i])
    &&& agree_before(e, a, i)
}

/// A divergence reported at a step that both traces have.
pub open spec fn reports_step(d: FirstDivergence, e: Seq<TraceEntry>, a: Seq<TraceEntry>, i: int) -> bool {
    &&& d.step == e[i].step
    &&& d.role@ == e[i].role@
    &&& d.operator_name@ == e[i].operator_name@
    &&& d.expected_out_digest@ == e[i].out_digest@
    &&& d.actual_out_digest@ == a[i].out_digest@
}

/// A divergence reported where one trace ends: the step is the shorter
/// length, the role and operator are those of the longer trace's step, and
/// the missing side's digest is `<missing>`.
pub open spec fn reports_missing(d: FirstDivergence, e: Seq<TraceEntry>, a: Seq<TraceEntry>) -> bool {
    let n = min_len(e, a);
    &&& d.step == n
    &&& if e.len() > a.len() {
        &&& d.role@ == e[n].role@
        &&& d.operator_name@ == e[n].operator_name@
        &&& d.expected_out_digest@ == e[n].out_digest@
        &&& d.actual_out_digest@ == "<missing>"@
    } else {
        &&& d.role@ == a[n].role@
        &&& d.operator_name@ == a[n].operator_name@
        &&& d.expected_out_digest@ == "<missing>"@
        &&& d.actual_out_digest@ == a[n].out_digest@
    }
}

/// What `first_divergence` reports, in terms of the traces' entries: at the
/// first step (among those both have) whose output digest or evidence
/// digest differs, that step is reported with both output digests; when
/// the common steps all agree on both digests, a longer trace is reported
/// at the shorter one's length, and traces of equal length give nothing.
pub proof fn lemma_first_divergence_reports(e: Seq<TraceEntry>, a: Seq<TraceEntry>, r: Option<FirstDivergence>, j: int)
    requires
        forall|i: int| first_diff(e, a, i) ==> (r matches Some(d) && reports_step(d, e, a, i)),
        (forall|i: int| !first_diff(e, a, i)) && e.len() != a.len() ==> (r matches Some(d) && reports_missing(d, e, a)),
        (forall|i: int| !first_diff(e, a, i)) && e.len() == a.len() ==> r is None,
    ensures
        0 <= j < e.len() && j < a.len() && (e[j].out_digest@ != a[j].out_digest@ || e[j].op_evidence_digest@
            != a[j].op_evidence_digest@) && (forall|k: int|
            0 <= k < j ==> e[k].out_digest@ == a[k].out_digest@ && e[k].op_evidence_digest@ == a[k].op_evidence_digest@)
            ==> (r matches Some(d) && d.step == e[j].step && d.role@ == e[j].role@ && d.operator_name@
            == e[j].operator_name@ && d.expected_out_digest@ == e[j].out_digest@ && d.actual_out_digest@
            == a[j].out_digest@),
        (forall|k: int|
            0 <= k < e.len() && k < a.len() ==> e[k].out_digest@ == a[k].out_digest@ && e[k].op_evidence_digest@
                == a[k].op_evidence_digest@) ==> (if e.len() == a.len() {
            r is None
        } else {
            r matches Some(d) && d.step == (if e.len() < a.len() {
                e.len()
            } else {
                a.len()
            })
        }),
{
    if 0 <= j < e.len() && j < a.len() && (e[j].out_digest@ != a[j].out_digest@ || e[j].op_evidence_digest@
        != a[j].op_evidence_digest@) && (forall|k: int|
        0 <= k < j ==> e[k].out_digest@ == a[k].out_digest@ && e[k].op_evidence_digest@ == a[k].op_evidence_digest@) {
        assert(first_diff(e, a, j));
    }
    if forall|k: int|
        0 <= k < e.len() && k < a.len() ==> e[k].out_digest@ == a[k].out_digest@ && e[k].op_evidence_digest@
            == a[k].op_evidence_digest@ {
        assert forall|i: int| !first_diff(e, a, i) by {}
    }
}

/// Finds the first divergence between an expected and an actual trace.
pub fn first_divergence(expected: &Vec<TraceEntry>, actual: &Vec<TraceEntry>) -> (r: Option<FirstDivergence>)
    ensures
        forall|i: int| first_diff(expected@, actual@, i) ==> (r matches Some(d) && reports_step(d, expected@, actual@, i)),
        (forall|i: int| !first_diff(expected@, actual@, i)) && expected@.len() != actual@.len() ==> (
        r matches Some(d) && reports_missing(d, expected@, actual@)),
        (forall|i: int| !first_diff(expected@, actual@, i)) && expected@.len() == actual@.len() ==> r is None,
{
    let n = if expected.len() <= actual.len() {
        expected.len()
    } else {
        actual.len()
    };
    let mut i: usize = 0;
    while i < n
        invariant
            n == min_len(expected@, actual@),
            i <= n,
            agree_before(expected@, actual@, i as int),
        decreases n - i,
    {
        let e = &expected[i];
        let a = &actual[i];
        if !str_eq(e.out_digest.as_str(), a.out_digest.as_str()) || !str_eq(
            e.op_evidence_digest.as_str(),
            a.op_evidence_digest.as_str(),
        ) {
            proof {
                assert(first_diff(expected@, actual@, i as int));
                assert forall|k: int| first_diff(expected@, actual@, k) implies k == i by {
                    if k < i {
                        assert(!steps_differ(expected@[k], actual@[k]));
                    }
                    if k > i {
                        assert(!steps_differ(expected@[i as int], actual@[i as int]));
                    }
                }
            }
            return Some(
                FirstDivergence {
                    step: e.step,
                    role: e.role.clone(),
                    operator_name: e.operator_name.clone(),
                    expected_out_digest: e.out_digest.clone(),
                    actual_out_digest: a.out_digest.clone(),
                },
            );
        }
        i = i + 1;
    }
    assert forall|k: int| !first_diff(expected@, actual@, k) by {
        if 0 <= k < n {
            assert(!steps_differ(expected@[k], actual@[k]));
        }
    }
    if expected.len() != actual.len() {
        if expected.len() > actual.len() {
            let e = &expected[n];
            return Some(
                FirstDivergence {
                    step: n as u64,
                    role: e.role.clone(),
                    operator_name: e.operator_name.clone(),
                    expected_out_digest: e.out_digest.clone(),
                    actual_out_digest: string_of("<missing>"),
                },
            );
        } else {
            let a = &actual[n];
            return Some(
                FirstDivergence {
                    step: n as u64,
                    role: a.role.clone(),
                    operator_name: a.operator_name.clone(),
                    expected_out_digest: string_of("<missing>"),
                    actual_out_digest: a.out_digest.clone(),
                },
            );
        }
    }
    None
}

/// A trace never diverges from itself.
pub proof fn lemma_trace_agrees_with_itself(t: Seq<TraceEntry>)
    ensures
        forall|i: int| !first_diff(t, t, i),
{
}

/// Evidence and manifest agree when they name the same trace and input
/// digests.
pub open spec fn manifest_consistent(ev: Evidence, m: ReplayManifest) -> bool {
    ev.trace_digest@ == m.trace_digest@ && ev.input_digest@ == m.input_digest@
}

/// Checks that the evidence and the manifest name the same trace and input.
pub fn verify_manifest_consistency(evidence: &Evidence, manifest: &ReplayManifest) -> (r: Result<(), CoreError>)
    ensures
        r is Ok <==> manifest_consistent(*evidence, *manifest),
        r matches Err(e) ==> e is DeterminismViolation && e->DeterminismViolation_0@
            == "manifest/evidence digest mismatch"@,
{
    if !str_eq(evidence.trace_digest.as_str(), manifest.trace_digest.as_str()) || !str_eq(
        evidence.input_digest.as_str(),
        manifest.input_digest.as_str(),
    ) {
        return Err(CoreError::DeterminismViolation(string_of("manifest/evidence digest mismatch")));
    }
    Ok(())
}

} // verus!
