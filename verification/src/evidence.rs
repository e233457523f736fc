//! Evidence of a run: the digests that bind its input, descriptor and trace,
//! and the per-step digests.
use vstd::prelude::*;

use crate::canon_jcs::{float_free, lemma_float_free_jcs, lemma_float_free_list, lemma_float_free_members};
use crate::digest::{digest_sha256_jcs, json_digest};
use crate::errors::CoreError;
use crate::json::{fields_push, items_push, json_str, view_fields, view_items, Json, JsonNumber, JsonValue};
use crate::rd::{rd_json, RunDescriptor};
use crate::trace::{lemma_trace_float_free, trace_json, trace_to_json, TraceEntry};

verus! {

/// The digests of one step.
#[derive(Debug, Clone, PartialEq, Eq)]
pub struct EvidenceStep {
    pub step: u64,
    pub role: String,
    pub operator_name: String,
    pub in_digest: String,
    pub out_digest: String,
    pub op_evidence_digest: String,
}

/// The evidence of a run.
#[derive(Debug, Clone, PartialEq, Eq)]
pub struct Evidence {
    pub input_digest: String,
    pub rd_digest: String,
    pub trace_digest: String,
    pub steps: Vec<EvidenceStep>,
}

/// The evidence step recorded for a trace entry: the same six fields.
pub open spec fn step_of(s: EvidenceStep, e: TraceEntry) -> bool {
    &&& s.step == e.step
    &&& s.role@ == e.role@
    &&& s.operator_name@ == e.operator_name@
    &&& s.in_digest@ == e.in_digest@
    &&& s.out_digest@ == e.out_digest@
    &&& s.op_evidence_digest@ == e.op_evidence_digest@
}

/// The digest of a float-free document exists.
pub proof fn lemma_float_free_digest(j: Json)
    requires
        float_free(j),
    ensures
        json_digest(j) is Some,
{
    lemma_float_free_jcs(j);
}

/// Builds the evidence of a run from its trace: the descriptor's and the
/// trace's digests and one evidence step per trace entry.
pub fn build_evidence(trace: &Vec<TraceEntry>, rd: &RunDescriptor, input_digest: String) -> (r:
    Result<Evidence, CoreError>)
    ensures
        r matches Ok(ev) && {
            &&& ev.input_digest == input_digest
            &&& json_digest(rd_json(*rd)) == Some(ev.rd_digest@)
            &&& json_digest(trace_json(trace@)) == Some(ev.trace_digest@)
            &&& ev.steps@.len() == trace@.len()
            &&& forall|i: int| 0 <= i < trace@.len() ==> step_of(#[trigger] ev.steps@[i], trace@[i])
        },
{
    let rdj = rd.to_json();
    proof {
        lemma_float_free_digest(rdj@);
    }
    let rd_digest = digest_sha256_jcs(&rdj, rd)?;
    let tj = trace_to_json(trace);
    proof {
        lemma_trace_float_free(trace@);
        lemma_float_free_digest(tj@);
    }
    let trace_digest = digest_sha256_jcs(&tj, rd)?;
    let mut steps: Vec<EvidenceStep> = Vec::new();
    for i in 0..trace.len()
        invariant
            steps@.len() == i,
            forall|k: int| 0 <= k < i ==> step_of(#[trigger] steps@[k], trace@[k]),
    {
        let t = &trace[i];
        steps.push(
            EvidenceStep {
                step: t.step,
                role: t.role.clone(),
                operator_name: t.operator_name.clone(),
                in_digest: t.in_digest.clone(),
                out_digest: t.out_digest.clone(),
                op_evidence_digest: t.op_evidence_digest.clone(),
            },
        );
    }
    Ok(Evidence { input_digest, rd_digest, trace_digest, steps })
}

pub open spec fn evidence_step_json(s: EvidenceStep) -> Json {
    Json::Object(
        seq![
            ("step"@, Json::Number(JsonNumber::U64(s.step))),
            ("role"@, Json::Str(s.role@)),
            ("operator_name"@, Json::Str(s.operator_name@)),
            ("in_digest"@, Json::Str(s.in_digest@)),
            ("out_digest"@, Json::Str(s.out_digest@)),
            ("op_evidence_digest"@, Json::Str(s.op_evidence_digest@)),
        ],
    )
}

/// The JSON form of evidence: one member per field, the steps as an array.
pub open spec fn evidence_json(ev: Evidence) -> Json {
    Json::Object(
        seq![
            ("input_digest"@, Json::Str(ev.input_digest@)),
            ("rd_digest"@, Json::Str(ev.rd_digest@)),
            ("trace_digest"@, Json::Str(ev.trace_digest@)),
            ("steps"@, Json::Array(ev.steps@.map_values(|s: EvidenceStep| evidence_step_json(s)))),
        ],
    )
}

impl Evidence {
    /// The JSON form of the evidence.
    pub fn to_json(&self) -> (r: JsonValue)
        ensures
            r@ == evidence_json(*self),
            float_free(r@),
    {
        let mut items: Vec<JsonValue> = Vec::new();
        for i in 0..self.steps.len()
            invariant
                view_items(items@) == self.steps@.take(i as int).map_values(
                    |s: EvidenceStep| evidence_step_json(s),
                ),
        {
            let s = &self.steps[i];
            let mut f: Vec<(String, JsonValue)> = Vec::new();
            fields_push(&mut f, "step", JsonValue::Number(JsonNumber::U64(s.step)));
            fields_push(&mut f, "role", json_str(s.role.as_str()));
            fields_push(&mut f, "operator_name", json_str(s.operator_name.as_str()));
            fields_push(&mut f, "in_digest", json_str(s.in_digest.as_str()));
            fields_push(&mut f, "out_digest", json_str(s.out_digest.as_str()));
            fields_push(&mut f, "op_evidence_digest", json_str(s.op_evidence_digest.as_str()));
            assert(view_fields(f@) =~= evidence_step_json(*s)->Object_0);
            items_push(&mut items, JsonValue::Object(f));
            assert(self.steps@.take(i + 1).map_values(|s: EvidenceStep| evidence_step_json(s))
                =~= self.steps@.take(i as int).map_values(|s: EvidenceStep| evidence_step_json(s)).push(
                evidence_step_json(self.steps@[i as int]),
            ));
        }
        assert(self.steps@.take(self.steps@.len() as int) == self.steps@);
        let mut f: Vec<(String, JsonValue)> = Vec::new();
        fields_push(&mut f, "input_digest", json_str(self.input_digest.as_str()));
        fields_push(&mut f, "rd_digest", json_str(self.rd_digest.as_str()));
        fields_push(&mut f, "trace_digest", json_str(self.trace_digest.as_str()));
        fields_push(&mut f, "steps", JsonValue::Array(items));
        assert(view_fields(f@) =~= evidence_json(*self)->Object_0);
        proof {
            let its = self.steps@.map_values(|s: EvidenceStep| evidence_step_json(s));
            assert forall|i: int| 0 <= i < its.len() implies float_free(#[trigger] its[i]) by {
                let fs = its[i]->Object_0;
                lemma_float_free_members(fs, fs.len());
            }
            lemma_float_free_list(its, its.len());
            let fs = evidence_json(*self)->Object_0;
            lemma_float_free_members(fs, fs.len());
        }
        JsonValue::Object(f)
    }
}

} // verus!
