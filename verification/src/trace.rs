//! Trace entries recorded by the engine, one per executed step.
use vstd::prelude::*;

use crate::canon_jcs::{float_free, lemma_float_free_list, lemma_float_free_members};
use crate::json::{fields_push, json_str, items_push, view_fields, view_items, Json, JsonNumber, JsonValue};

verus! {

/// One executed step: its index, role, operator, and the digests of the
/// state before and after it and of the operator's evidence.
#[derive(Debug, Clone, PartialEq, Eq)]
pub struct TraceEntry {
    pub step: u64,
    pub role: String,
    pub operator_name: String,
    pub in_digest: String,
    pub out_digest: String,
    pub op_evidence_digest: String,
}

/// The trace of a run.
pub type EngineTrace = Vec<TraceEntry>;

/// What a trace entry records, as text.
pub struct StepRecord {
    pub step: u64,
    pub role: Seq<char>,
    pub operator_name: Seq<char>,
    pub in_digest: Seq<char>,
    pub out_digest: Seq<char>,
    pub op_evidence_digest: Seq<char>,
}

impl View for TraceEntry {
    type V = StepRecord;

    open spec fn view(&self) -> StepRecord {
        StepRecord {
            step: self.step,
            role: self.role@,
            operator_name: self.operator_name@,
            in_digest: self.in_digest@,
            out_digest: self.out_digest@,
            op_evidence_digest: self.op_evidence_digest@,
        }
    }
}

/// The records of a trace.
pub open spec fn records(t: Seq<TraceEntry>) -> Seq<StepRecord> {
    t.map_values(|e: TraceEntry| e@)
}

impl TraceEntry {
    /// A copy of the entry.
    pub fn copy(&self) -> (r: TraceEntry)
        ensures
            r == *self,
    {
        TraceEntry {
            step: self.step,
            role: self.role.clone(),
            operator_name: self.operator_name.clone(),
            in_digest: self.in_digest.clone(),
            out_digest: self.out_digest.clone(),
            op_evidence_digest: self.op_evidence_digest.clone(),
        }
    }
}

/// The JSON form of a trace entry: an object with one member per field.
pub open spec fn trace_entry_json(e: TraceEntry) -> Json {
    Json::Object(
        seq![
            ("step"@, Json::Number(JsonNumber::U64(e.step))),
            ("role"@, Json::Str(e.role@)),
            ("operator_name"@, Json::Str(e.operator_name@)),
            ("in_digest"@, Json::Str(e.in_digest@)),
            ("out_digest"@, Json::Str(e.out_digest@)),
            ("op_evidence_digest"@, Json::Str(e.op_evidence_digest@)),
        ],
    )
}

pub proof fn lemma_trace_entry_float_free(e: TraceEntry)
    ensures
        float_free(trace_entry_json(e)),
{
    let fs = trace_entry_json(e)->Object_0;
    lemma_float_free_members(fs, fs.len());
}

pub proof fn lemma_trace_float_free(t: Seq<TraceEntry>)
    ensures
        float_free(trace_json(t)),
{
    let items = t.map_values(|e: TraceEntry| trace_entry_json(e));
    assert forall|i: int| 0 <= i < items.len() implies float_free(#[trigger] items[i]) by {
        lemma_trace_entry_float_free(t[i]);
    }
    lemma_float_free_list(items, items.len());
}

/// The JSON form of a trace: the array of its entries' forms.
pub open spec fn trace_json(t: Seq<TraceEntry>) -> Json {
    Json::Array(t.map_values(|e: TraceEntry| trace_entry_json(e)))
}

/// The JSON form of a trace entry.
pub fn trace_entry_to_json(e: &TraceEntry) -> (r: JsonValue)
    ensures
        r@ == trace_entry_json(*e),
{
    let mut f: Vec<(String, JsonValue)> = Vec::new();
    fields_push(&mut f, "step", JsonValue::Number(JsonNumber::U64(e.step)));
    fields_push(&mut f, "role", json_str(e.role.as_str()));
    fields_push(&mut f, "operator_name", json_str(e.operator_name.as_str()));
    fields_push(&mut f, "in_digest", json_str(e.in_digest.as_str()));
    fields_push(&mut f, "out_digest", json_str(e.out_digest.as_str()));
    fields_push(&mut f, "op_evidence_digest", json_str(e.op_evidence_digest.as_str()));
    assert(view_fields(f@) =~= trace_entry_json(*e)->Object_0);
    JsonValue::Object(f)
}

/// The JSON form of a trace.
pub fn trace_to_json(t: &Vec<TraceEntry>) -> (r: JsonValue)
    ensures
        r@ == trace_json(t@),
{
    let mut items: Vec<JsonValue> = Vec::new();
    for i in 0..t.len()
        invariant
            view_items(items@) == t@.take(i as int).map_values(|e: TraceEntry| trace_entry_json(e)),
    {
        items_push(&mut items, trace_entry_to_json(&t[i]));
        assert(t@.take(i + 1).map_values(|e: TraceEntry| trace_entry_json(e)) =~= t@.take(
            i as int,
        ).map_values(|e: TraceEntry| trace_entry_json(e)).push(trace_entry_json(t@[i as int])));
    }
    assert(t@.take(t@.len() as int) == t@);
    JsonValue::Array(items)
}

} // verus!
