//! Operator roles and the operator interface.
use vstd::prelude::*;

use crate::canon_jcs::{float_free, lemma_float_free_members, lemma_set_float_free};
use crate::errors::CoreError;
use crate::json::{
    assignable, first_key, has_key, json_index, json_set, json_set2, key_index, lemma_set_get_same, Json, JsonValue,
};
use crate::rd::RunDescriptor;

verus! {

/// The roles of the standard cycle, in cycle order.
#[derive(Debug, Clone, Copy, PartialEq, Eq, Structural)]
pub enum OperatorRole {
    Ingest,
    Canon,
    Measure,
    Solve,
    Morph,
    Gate,
    Select,
    Merge,
    Emit,
}

pub open spec fn role_name(r: OperatorRole) -> Seq<char> {
    match r {
        OperatorRole::Ingest => "ingest"@,
        OperatorRole::Canon => "canon"@,
        OperatorRole::Measure => "measure"@,
        OperatorRole::Solve => "solve"@,
        OperatorRole::Morph => "morph"@,
        OperatorRole::Gate => "gate"@,
        OperatorRole::Select => "select"@,
        OperatorRole::Merge => "merge"@,
        OperatorRole::Emit => "emit"@,
    }
}

impl OperatorRole {
    /// The role's lower-case name.
    pub fn as_str(&self) -> (s: &'static str)
        ensures
            s@ == role_name(*self),
    {
        match self {
            OperatorRole::Ingest => "ingest",
            OperatorRole::Canon => "canon",
            OperatorRole::Measure => "measure",
            OperatorRole::Solve => "solve",
            OperatorRole::Morph => "morph",
            OperatorRole::Gate => "gate",
            OperatorRole::Select => "select",
            OperatorRole::Merge => "merge",
            OperatorRole::Emit => "emit",
        }
    }
}

/// The states that operators accept and produce: `null`, or an object
/// whose `triton` member, if any, is `null` or an object.
pub open spec fn engine_state_ok(j: Json) -> bool {
    ||| j is Null
    ||| (j is Object && (json_index(j, "triton"@) is Null || json_index(j, "triton"@) is Object))
}

/// A state transition operator: a name, the role it serves, and a step
/// from a state to the next state and an evidence document. A step is a
/// function of the state and the run descriptor alone (`spec_step`, `None`
/// where it fails), so that runs replay. An operator runs on the states it
/// accepts (`spec_accepts`). An operator is total when it succeeds on every
/// accepted state without Q16.16 numbers. Steps map states without Q16.16
/// numbers to such states and evidence.
pub trait EngineOperator {
    spec fn spec_name(&self) -> Seq<char>;

    spec fn spec_role(&self) -> OperatorRole;

    spec fn spec_total(&self) -> bool;

    spec fn spec_accepts(&self, state: Json) -> bool;

    spec fn spec_step(&self, state: Json, rd: RunDescriptor) -> Option<(Json, Json)>;

    fn name(&self) -> (r: &'static str)
        ensures
            r@ == self.spec_name(),
    ;

    fn role(&self) -> (r: OperatorRole)
        ensures
            r == self.spec_role(),
    ;

    fn execute(&self, state: &JsonValue, rd: &RunDescriptor) -> (r: Result<(JsonValue, JsonValue), CoreError>)
        requires
            self.spec_accepts(state@),
        ensures
            r is Ok <==> self.spec_step(state@, *rd) is Some,
            r matches Ok((next, ev)) ==> self.spec_step(state@, *rd) == Some((next@, ev@)),
            r matches Ok((next, ev)) ==> (float_free(state@) ==> float_free(next@) && float_free(ev@)),
            self.spec_total() && float_free(state@) ==> r is Ok,
    ;
}

/// A document found two members deep, `j.a.b`, lies in an object member of
/// an object: `j` is an object whose member `a` is an object.
pub proof fn lemma_nested_member(j: Json, a: Seq<char>, b: Seq<char>)
    requires
        !(json_index(json_index(j, a), b) is Null),
    ensures
        j is Object,
        json_index(j, a) is Object,
        engine_state_ok(j) || a != "triton"@,
{
}

/// A member of a float-free document is float-free.
pub proof fn lemma_index_float_free(j: Json, k: Seq<char>)
    requires
        float_free(j),
    ensures
        float_free(json_index(j, k)),
{
    match j {
        Json::Object(fs) => {
            lemma_float_free_members(fs, fs.len());
            if has_key(fs, k) {
                assert(first_key(fs, k, key_index(fs, k)));
            }
        },
        _ => {},
    }
}

/// Setting member `k` of a state's `triton` member keeps the state
/// acceptable, and float-free when the value is.
pub proof fn lemma_set_triton_member(j: Json, k: Seq<char>, x: Json)
    requires
        engine_state_ok(j),
    ensures
        assignable(j),
        assignable(json_index(j, "triton"@)),
        engine_state_ok(json_set2(j, "triton"@, k, x)),
        float_free(j) && float_free(x) ==> float_free(json_set2(j, "triton"@, k, x)),
{
    let t = json_index(j, "triton"@);
    let inner = json_set(t, k, x);
    lemma_set_get_same(j, "triton"@, inner);
    if float_free(j) && float_free(x) {
        lemma_index_float_free(j, "triton"@);
        lemma_set_float_free(t, k, x);
        lemma_set_float_free(j, "triton"@, inner);
    }
}

} // verus!
