//! The decisions of the command line: what a run produces and reports, and
//! how a replay of a recorded run is judged.
use vstd::prelude::*;

use crate::audit::{ledger_of, make_ledger, LedgerEntry};
use crate::canon_jcs::lemma_float_free_members;
use crate::digest::{digest_sha256_jcs, json_digest};
use crate::engine::run_result;
use crate::errors::CoreError;
use crate::evidence::{build_evidence, lemma_float_free_digest, step_of, Evidence};
use crate::json::{fields_push, json_str, view_fields, Json, JsonValue};
use crate::manifest::{build_manifest, ReplayManifest};
use crate::model::pack::{counter_start, patch_run, run_10_steps, v1_names};
use crate::operators::{role_name, OperatorRole};
use crate::program::default_cycle;
use crate::rd::{rd_json, RunDescriptor};
use crate::replay::{
    first_diff, first_divergence, manifest_consistent, reports_missing, reports_step, verify_manifest_consistency,
    FirstDivergence,
};
use crate::text::{str_eq, string_of};
use crate::trace::{lemma_trace_float_free, records, trace_json, trace_to_json, TraceEntry};

verus! {

/// The document whose digest identifies a run's input: `{"input": text}`.
pub open spec fn input_doc(text: Seq<char>) -> Json {
    Json::Object(seq![("input"@, Json::Str(text))])
}

/// The digest of an input text.
pub fn digest_input_text(text: &str, rd: &RunDescriptor) -> (r: Result<String, CoreError>)
    ensures
        r matches Ok(d) && json_digest(input_doc(text@)) == Some(d@),
{
    let mut f: Vec<(String, JsonValue)> = Vec::new();
    fields_push(&mut f, "input", json_str(text));
    assert(view_fields(f@) =~= input_doc(text@)->Object_0);
    let doc = JsonValue::Object(f);
    proof {
        let fs = input_doc(text@)->Object_0;
        lemma_float_free_members(fs, fs.len());
        lemma_float_free_digest(doc@);
    }
    digest_sha256_jcs(&doc, rd)
}

/// What a run produces: its trace, evidence, manifest and ledger, the
/// trace's digest, the head digest, and whether it committed.
pub struct RunReport {
    pub trace: Vec<TraceEntry>,
    pub evidence: Evidence,
    pub manifest: ReplayManifest,
    pub ledger: Vec<LedgerEntry>,
    pub trace_digest: String,
    pub head_digest: String,
    pub committed: bool,
}

/// The head digest of a trace: its last output digest, or `sha256:0` when
/// it is empty.
pub open spec fn head_of(t: Seq<TraceEntry>) -> Seq<char> {
    if t.len() == 0 {
        "sha256:0"@
    } else {
        t.last().out_digest@
    }
}

/// A run commits when some step is an emit step.
pub open spec fn commits(t: Seq<TraceEntry>) -> bool {
    exists|i: int| 0 <= i < t.len() && (#[trigger] t[i]).role@ == "emit"@
}

/// `rep` is what a run with `rd` on input digest `input` produced.
pub open spec fn run_report_of(rep: RunReport, rd: RunDescriptor, input: Seq<char>) -> bool {
    let t = rep.trace@;
    &&& exists|s: Json| patch_run(rd, counter_start(), 10) == Some((s, records(t)))
    &&& exists|s: Json| run_result(v1_names(), default_cycle(), counter_start(), s, t, 10)
    &&& rep.evidence.input_digest@ == input
    &&& json_digest(rd_json(rd)) == Some(rep.evidence.rd_digest@)
    &&& json_digest(trace_json(t)) == Some(rep.evidence.trace_digest@)
    &&& rep.evidence.steps@.len() == t.len()
    &&& forall|i: int| 0 <= i < t.len() ==> step_of(#[trigger] rep.evidence.steps@[i], t[i])
    &&& json_digest(trace_json(t)) == Some(rep.trace_digest@)
    &&& rep.head_digest@ == head_of(t)
    &&& rep.manifest.hash_algorithm@ == "sha256"@
    &&& json_digest(rd_json(rd)) == Some(rep.manifest.rd_digest@)
    &&& rep.manifest.input_digest@ == input
    &&& rep.manifest.trace_digest@ == rep.trace_digest@
    &&& rep.manifest.head_digest@ == rep.head_digest@
    &&& ledger_of(t, rep.ledger@)
    &&& rep.committed == commits(t)
}

/// Runs ten steps of the standard cycle on the patch engine and builds the
/// run's evidence, manifest and ledger. Such a run always reaches an emit
/// step, so it always commits.
pub fn run_pipeline(rd: &RunDescriptor, input_digest: &str) -> (rep: RunReport)
    ensures
        run_report_of(rep, *rd, input_digest@),
        rep.committed,
{
    let (state, trace) = run_10_steps(rd).unwrap();
    let ghost t = trace@;
    let evidence = build_evidence(&trace, rd, string_of(input_digest)).unwrap();
    let tj = trace_to_json(&trace);
    proof {
        lemma_trace_float_free(t);
        lemma_float_free_digest(tj@);
    }
    let trace_digest = digest_sha256_jcs(&tj, rd).unwrap();
    let head_digest = if trace.len() == 0 {
        string_of("sha256:0")
    } else {
        trace[trace.len() - 1].out_digest.clone()
    };
    let manifest = build_manifest(rd, input_digest, trace_digest.as_str(), &evidence, head_digest.as_str()).unwrap();
    let ledger = make_ledger(trace.as_slice());
    let mut committed = false;
    let mut i: usize = 0;
    while i < trace.len()
        invariant
            i <= trace@.len(),
            committed == exists|j: int| 0 <= j < i && (#[trigger] trace@[j]).role@ == "emit"@,
        decreases trace@.len() - i,
    {
        if str_eq(trace[i].role.as_str(), "emit") {
            committed = true;
        }
        i = i + 1;
    }
    proof {
        assert(default_cycle().len() == 9);
        assert(8int % 9 == 8);
        assert(crate::engine::cycle_role(default_cycle(), 8) == OperatorRole::Emit);
        assert(trace@[8].role@ == role_name(crate::engine::cycle_role(default_cycle(), 8)));
        assert(trace@[8].role@ == "emit"@);
    }
    RunReport { trace, evidence, manifest, ledger, trace_digest, head_digest, committed }
}

/// The exit code of a run: 0 when it committed, 10 when it did not.
pub fn run_exit_code(committed: bool) -> (code: i32)
    ensures
        code == (if committed {
            0i32
        } else {
            10i32
        }),
{
    if committed {
        0
    } else {
        10
    }
}

/// The message of a run: `run complete`, or that gating failed and
/// nothing was committed.
pub fn run_message(committed: bool) -> (m: &'static str)
    ensures
        m@ == (if committed {
            "run complete"@
        } else {
            "gate failed: valid run but no commit"@
        }),
{
    if committed {
        "run complete"
    } else {
        "gate failed: valid run but no commit"
    }
}

/// How a replay ends.
pub enum ReplayOutcome {
    /// The input's digest is not the one the manifest records.
    InputMismatch { expected: String, actual: String },
    /// Evidence and manifest disagree.
    Inconsistent(CoreError),
    /// The new run diverges from the recorded trace.
    Diverged(FirstDivergence),
    /// The new run reproduces the recorded trace.
    Replayed,
}

/// How a fresh trace `a` compares with the recorded trace `e`.
pub open spec fn replay_compares(e: Seq<TraceEntry>, a: Seq<TraceEntry>, r: ReplayOutcome) -> bool {
    &&& forall|i: int| first_diff(e, a, i) ==> (r matches ReplayOutcome::Diverged(d) && reports_step(d, e, a, i))
    &&& (forall|i: int| !first_diff(e, a, i)) && e.len() != a.len() ==> (r matches ReplayOutcome::Diverged(d)
        && reports_missing(d, e, a))
    &&& (forall|i: int| !first_diff(e, a, i)) && e.len() == a.len() ==> r is Replayed
}

/// What `replay_check` promises of its outcome `r`.
pub open spec fn replay_outcome(
    e: Seq<TraceEntry>,
    ev: Evidence,
    m: ReplayManifest,
    input: Seq<char>,
    rd: RunDescriptor,
    r: ReplayOutcome,
) -> bool {
    &&& m.input_digest@ != input ==> (r matches ReplayOutcome::InputMismatch { expected, actual }
        && expected@ == m.input_digest@ && actual@ == input)
    &&& m.input_digest@ == input && !manifest_consistent(ev, m) ==> (r matches ReplayOutcome::Inconsistent(err)
        && err is DeterminismViolation && err->DeterminismViolation_0@ == "manifest/evidence digest mismatch"@)
    &&& m.input_digest@ == input && manifest_consistent(ev, m) ==> exists|a: Seq<TraceEntry>, s: Json|
        patch_run(rd, counter_start(), 10) == Some((s, records(a))) && replay_compares(e, a, r)
}

/// Judges a replay: the input must be the recorded one, evidence and
/// manifest must agree, and a fresh ten-step run must reproduce the
/// recorded trace.
pub fn replay_check(
    expected_trace: &Vec<TraceEntry>,
    expected_evidence: &Evidence,
    expected_manifest: &ReplayManifest,
    input_digest: &str,
    rd: &RunDescriptor,
) -> (r: ReplayOutcome)
    ensures
        replay_outcome(expected_trace@, *expected_evidence, *expected_manifest, input_digest@, *rd, r),
{
    if !str_eq(expected_manifest.input_digest.as_str(), input_digest) {
        return ReplayOutcome::InputMismatch {
            expected: expected_manifest.input_digest.clone(),
            actual: string_of(input_digest),
        };
    }
    match verify_manifest_consistency(expected_evidence, expected_manifest) {
        Ok(()) => {},
        Err(e) => {
            return ReplayOutcome::Inconsistent(e);
        },
    }
    let (state, actual) = run_10_steps(rd).unwrap();
    let r = match first_divergence(expected_trace, &actual) {
        Some(d) => ReplayOutcome::Diverged(d),
        None => ReplayOutcome::Replayed,
    };
    assert(patch_run(*rd, counter_start(), 10) == Some((state@, records(actual@))));
    assert(replay_compares(expected_trace@, actual@, r));
    r
}

/// The exit code of a replay: 0 when replayed, 30 on divergence, 20
/// otherwise.
pub fn replay_exit_code(r: &ReplayOutcome) -> (code: i32)
    ensures
        code == match r {
            ReplayOutcome::Replayed => 0i32,
            ReplayOutcome::Diverged(_) => 30i32,
            _ => 20i32,
        },
{
    match r {
        ReplayOutcome::Replayed => 0,
        ReplayOutcome::Diverged(_) => 30,
        _ => 20,
    }
}

/// A recorded run replays: judged against the same run descriptor and input
/// digest, the trace, evidence and manifest of a run are reproduced.
pub proof fn lemma_recorded_run_replays(rep: RunReport, rd: RunDescriptor, input: Seq<char>, r: ReplayOutcome)
    requires
        run_report_of(rep, rd, input),
        replay_outcome(rep.trace@, rep.evidence, rep.manifest, input, rd, r),
    ensures
        r is Replayed,
{
    let t = rep.trace@;
    assert(manifest_consistent(rep.evidence, rep.manifest));
    let s0 = choose|s: Json| patch_run(rd, counter_start(), 10) == Some((s, records(t)));
    let (a, s1) = choose|a: Seq<TraceEntry>, s: Json|
        patch_run(rd, counter_start(), 10) == Some((s, records(a))) && replay_compares(t, a, r);
    assert(records(a) == records(t));
    assert(a.len() == t.len());
    assert forall|i: int| !first_diff(t, a, i) by {
        if 0 <= i < t.len() {
            assert(records(a)[i] == records(t)[i]);
        }
    }
}

} // verus!
