//! The model pack's engines: a counting patch operator for every role,
//! and runs over text input.
use vstd::prelude::*;

use crate::canon_jcs::{float_free, lemma_float_free_members, lemma_set_float_free};
use crate::digest::{digest_sha256_jcs, json_digest};
use crate::engine::{
    cycle_role, lemma_run_from_fails_after, lemma_run_from_step, run_accepted, run_from, run_result, Engine,
};
use crate::errors::CoreError;
use crate::evidence::lemma_float_free_digest;
use crate::json::{
    assignable, fields_push, json_as_u64, json_get, json_index, json_set, json_str, lemma_has_key_iff,
    lemma_set_get_other, view_fields, Json, JsonNumber, JsonValue,
};
use crate::model::frontends::generic_text::{lemma_text_graph_float_free, text_graph, text_to_uir};
use crate::operator_registry::OperatorRegistry;
use crate::operators::{engine_state_ok, role_name, EngineOperator, OperatorRole};
use crate::program::{default_cycle, Program};
use crate::rd::{rd_json, RunDescriptor};
use crate::state::init_sigma_from_uir;
use crate::text::string_of;
use crate::triton::operators_triton::{
    triton_index,
    triton_crystallize, triton_gate, triton_measure, triton_turn, TritonGateSolveCoagula, TritonMeasureSigma,
    TritonStep, TritonTICCrystallize,
};
use crate::triton::spectral::TritonContext;
use crate::trace::{records, EngineTrace, StepRecord};
use crate::uir::{canonical_graph, graph_json, lemma_graph_json_float_free};

verus! {

/// An operator that counts steps in the state's `count` member and records
/// its role in `last_role`.
struct JsonPatchOp {
    role: OperatorRole,
    name: &'static str,
}

pub open spec fn saturating_inc(n: u64) -> u64 {
    if n == u64::MAX {
        n
    } else {
        (n + 1) as u64
    }
}

/// The state after a patch step: `count` becomes one more than its old
/// unsigned value (0 when absent or not an unsigned integer), saturating,
/// and `last_role` becomes the role's name.
pub open spec fn patched_state(state: Json, role: OperatorRole) -> Json {
    let old_count = match json_get(state, "count"@) {
        Some(c) => match json_as_u64(c) {
            Some(n) => n,
            None => 0,
        },
        None => 0,
    };
    json_set(
        json_set(state, "count"@, Json::Number(JsonNumber::U64(saturating_inc(old_count)))),
        "last_role"@,
        Json::Str(role_name(role)),
    )
}

/// The evidence of a patch step: role, operator name and the digest of the
/// run descriptor.
pub open spec fn patch_evidence(role: OperatorRole, name: Seq<char>, rd_digest: Seq<char>) -> Json {
    Json::Object(
        seq![
            ("role"@, Json::Str(role_name(role))),
            ("name"@, Json::Str(name)),
            ("rd_digest"@, Json::Str(rd_digest)),
        ],
    )
}

/// The step of a patch operator: the patched state, and evidence naming
/// the role, the operator and the run descriptor's digest.
pub open spec fn patch_step(role: OperatorRole, name: Seq<char>, state: Json, rd: RunDescriptor) -> Option<(Json, Json)> {
    Some((patched_state(state, role), patch_evidence(role, name, json_digest(rd_json(rd)).unwrap())))
}

proof fn lemma_literals_differ()
    ensures
        "count"@ != "triton"@,
        "last_role"@ != "triton"@,
{
    reveal_strlit("count");
    reveal_strlit("triton");
    reveal_strlit("last_role");
    assert("count"@.len() != "triton"@.len());
    assert("last_role"@.len() != "triton"@.len());
}

impl EngineOperator for JsonPatchOp {
    closed spec fn spec_name(&self) -> Seq<char> {
        self.name@
    }

    closed spec fn spec_role(&self) -> OperatorRole {
        self.role
    }

    closed spec fn spec_total(&self) -> bool {
        true
    }

    /// It sets members of the state: the state is `null` or an object.
    closed spec fn spec_accepts(&self, state: Json) -> bool {
        assignable(state)
    }

    closed spec fn spec_step(&self, state: Json, rd: RunDescriptor) -> Option<(Json, Json)> {
        patch_step(self.role, self.name@, state, rd)
    }

    fn name(&self) -> (r: &'static str) {
        self.name
    }

    fn role(&self) -> (r: OperatorRole) {
        self.role
    }

    fn execute(&self, state: &JsonValue, rd: &RunDescriptor) -> (r: Result<(JsonValue, JsonValue), CoreError>)
        ensures
            r matches Ok((next, ev)) && next@ == patched_state(state@, self.spec_role()) && json_digest(
                rd_json(*rd),
            ) is Some && ev@ == patch_evidence(self.spec_role(), self.spec_name(), json_digest(rd_json(*rd)).unwrap()),
    {
        let mut next = state.deep_clone();
        let old_count = match next.get("count") {
            Some(c) => match c.as_u64() {
                Some(n) => n,
                None => 0,
            },
            None => 0,
        };
        let count = if old_count == u64::MAX {
            old_count
        } else {
            old_count + 1
        };
        let ghost s0 = next@;
        next.set(string_of("count"), JsonValue::Number(JsonNumber::U64(count)));
        let ghost s1 = next@;
        next.set(string_of("last_role"), json_str(self.role.as_str()));
        let rdj = rd.to_json();
        proof {
            lemma_float_free_digest(rdj@);
        }
        let rd_digest = digest_sha256_jcs(&rdj, rd)?;
        let mut ev: Vec<(String, JsonValue)> = Vec::new();
        fields_push(&mut ev, "role", json_str(self.role.as_str()));
        fields_push(&mut ev, "name", json_str(self.name));
        fields_push(&mut ev, "rd_digest", JsonValue::Str(rd_digest));
        assert(view_fields(ev@) =~= patch_evidence(self.role, self.name@, json_digest(rd_json(*rd)).unwrap())->Object_0);
        let evidence = JsonValue::Object(ev);
        proof {
            lemma_literals_differ();
            lemma_set_get_other(s0, "count"@, Json::Number(JsonNumber::U64(count)), "triton"@);
            lemma_set_get_other(s1, "last_role"@, Json::Str(role_name(self.role)), "triton"@);
            if float_free(state@) {
                lemma_set_float_free(s0, "count"@, Json::Number(JsonNumber::U64(count)));
                lemma_set_float_free(s1, "last_role"@, Json::Str(role_name(self.role)));
            }
            let fs = evidence@->Object_0;
            lemma_float_free_members(fs, fs.len());
        }
        Ok((next, evidence))
    }
}

/// The operator name of each role in the patch engine: the role's name with
/// `_v1` appended.
pub open spec fn v1_name(r: OperatorRole) -> Seq<char> {
    match r {
        OperatorRole::Ingest => "ingest_v1"@,
        OperatorRole::Canon => "canon_v1"@,
        OperatorRole::Measure => "measure_v1"@,
        OperatorRole::Solve => "solve_v1"@,
        OperatorRole::Morph => "morph_v1"@,
        OperatorRole::Gate => "gate_v1"@,
        OperatorRole::Select => "select_v1"@,
        OperatorRole::Merge => "merge_v1"@,
        OperatorRole::Emit => "emit_v1"@,
    }
}

pub open spec fn v1_names() -> Map<OperatorRole, Seq<char>> {
    Map::new(|r: OperatorRole| true, |r: OperatorRole| v1_name(r))
}

/// An engine with a patch operator for every role.
pub fn build_engine() -> (e: Engine)
    ensures
        e.registry.names() == v1_names(),
        e.registry.total_roles() == Set::new(|r: OperatorRole| true),
        forall|r: OperatorRole, state: Json, rd: RunDescriptor|
            #[trigger] e.registry.step(r, state, rd) == patch_step(r, v1_name(r), state, rd),
        forall|r: OperatorRole, state: Json| #[trigger] e.registry.accepts(r, state) == assignable(state),
{
    let mut reg = OperatorRegistry::new();
    reg.register(Box::new(JsonPatchOp { role: OperatorRole::Ingest, name: "ingest_v1" }));
    reg.register(Box::new(JsonPatchOp { role: OperatorRole::Canon, name: "canon_v1" }));
    reg.register(Box::new(JsonPatchOp { role: OperatorRole::Measure, name: "measure_v1" }));
    reg.register(Box::new(JsonPatchOp { role: OperatorRole::Solve, name: "solve_v1" }));
    reg.register(Box::new(JsonPatchOp { role: OperatorRole::Morph, name: "morph_v1" }));
    reg.register(Box::new(JsonPatchOp { role: OperatorRole::Gate, name: "gate_v1" }));
    reg.register(Box::new(JsonPatchOp { role: OperatorRole::Select, name: "select_v1" }));
    reg.register(Box::new(JsonPatchOp { role: OperatorRole::Merge, name: "merge_v1" }));
    reg.register(Box::new(JsonPatchOp { role: OperatorRole::Emit, name: "emit_v1" }));
    assert(reg.names() =~= v1_names());
    assert(reg.total_roles() =~= Set::new(|r: OperatorRole| true));
    assert forall|r: OperatorRole, state: Json, rd: RunDescriptor|
        #[trigger] reg.step(r, state, rd) == patch_step(r, v1_name(r), state, rd) by {
        match r {
            OperatorRole::Ingest => {},
            OperatorRole::Canon => {},
            OperatorRole::Measure => {},
            OperatorRole::Solve => {},
            OperatorRole::Morph => {},
            OperatorRole::Gate => {},
            OperatorRole::Select => {},
            OperatorRole::Merge => {},
            OperatorRole::Emit => {},
        }
    }
    assert forall|r: OperatorRole, state: Json| #[trigger] reg.accepts(r, state) == assignable(state) by {
        match r {
            OperatorRole::Ingest => {},
            OperatorRole::Canon => {},
            OperatorRole::Measure => {},
            OperatorRole::Solve => {},
            OperatorRole::Morph => {},
            OperatorRole::Gate => {},
            OperatorRole::Select => {},
            OperatorRole::Merge => {},
            OperatorRole::Emit => {},
        }
    }
    Engine { registry: reg }
}

/// The initial state of a counting run: `{"count": 0}`.
pub open spec fn counter_start() -> Json {
    Json::Object(seq![("count"@, Json::Number(JsonNumber::U64(0)))])
}

/// The first `k` steps of the standard cycle on the patch engine from
/// `init`.
pub open spec fn patch_run(rd: RunDescriptor, init: Json, k: nat) -> Option<(Json, Seq<StepRecord>)> {
    run_from(v1_names(), |ro: OperatorRole, s: Json| patch_step(ro, v1_name(ro), s, rd), default_cycle(), init, k)
}

/// Every state that a patch run from an object reaches is an object, so
/// every patch step accepts it.
pub proof fn lemma_patch_run_accepted(rd: RunDescriptor, init: Json, steps: nat)
    requires
        init is Object,
    ensures
        run_accepted(
            v1_names(),
            |ro: OperatorRole, s: Json| patch_step(ro, v1_name(ro), s, rd),
            |ro: OperatorRole, s: Json| assignable(s),
            default_cycle(),
            init,
            steps,
        ),
{
    let f = |ro: OperatorRole, s: Json| patch_step(ro, v1_name(ro), s, rd);
    assert forall|k: nat|
        k < steps && #[trigger] run_from(v1_names(), f, default_cycle(), init, k) is Some implies assignable(
        run_from(v1_names(), f, default_cycle(), init, k).unwrap().0,
    ) by {
        if k > 0 {
            lemma_run_from_step(v1_names(), f, default_cycle(), init, (k - 1) as nat);
        }
    }
}

/// A run on the patch engine depends on the run descriptor only through
/// its JSON form.
pub proof fn lemma_patch_run_rd_authority(rd1: RunDescriptor, rd2: RunDescriptor, init: Json, k: nat)
    requires
        rd_json(rd1) == rd_json(rd2),
    ensures
        patch_run(rd1, init, k) == patch_run(rd2, init, k),
{
    assert((|ro: OperatorRole, s: Json| patch_step(ro, v1_name(ro), s, rd1)) =~= (|ro: OperatorRole, s: Json|
        patch_step(ro, v1_name(ro), s, rd2)));
}

/// Ten steps of the standard cycle from `{"count": 0}` on the patch engine.
pub fn run_10_steps(rd: &RunDescriptor) -> (r: Result<(JsonValue, EngineTrace), CoreError>)
    ensures
        r matches Ok((state, trace)) && run_result(v1_names(), default_cycle(), counter_start(), state@, trace@, 10)
            && patch_run(*rd, counter_start(), 10) == Some((state@, records(trace@))),
{
    let engine = build_engine();
    let program = Program::psp_core_default_cycle();
    let mut f: Vec<(String, JsonValue)> = Vec::new();
    fields_push(&mut f, "count", JsonValue::Number(JsonNumber::U64(0)));
    assert(view_fields(f@) =~= counter_start()->Object_0);
    let init = JsonValue::Object(f);
    proof {
        let fs = counter_start()->Object_0;
        lemma_float_free_members(fs, fs.len());
        lemma_literals_differ();
        lemma_has_key_iff(fs, "triton"@);
        assert((|ro: OperatorRole, s: Json| engine.registry.step(ro, s, *rd)) =~= (|ro: OperatorRole, s: Json|
            patch_step(ro, v1_name(ro), s, *rd)));
        assert((|ro: OperatorRole, s: Json| engine.registry.accepts(ro, s)) =~= (|ro: OperatorRole, s: Json|
            assignable(s)));
        lemma_patch_run_accepted(*rd, counter_start(), 10);
    }
    engine.run(&init, &program, rd, 10)
}

/// The canonical UIR graph of an input text.
pub open spec fn input_graph(input: Seq<char>) -> crate::uir::GraphView {
    canonical_graph(text_graph("input"@, input))
}

/// The initial state of a run over text: the JSON form of the text's UIR
/// graph (module `input`).
pub open spec fn text_start(input: Seq<char>) -> Json {
    graph_json(input_graph(input))
}

proof fn lemma_graph_json_state_ok(g: crate::uir::GraphView)
    ensures
        engine_state_ok(graph_json(g)),
        json_get(graph_json(g), "triton"@) is None,
{
    let fs = graph_json(g)->Object_0;
    reveal_strlit("triton");
    reveal_strlit("uir_version");
    reveal_strlit("nodes");
    reveal_strlit("edges");
    assert("uir_version"@.len() != "triton"@.len());
    assert("nodes"@.len() != "triton"@.len());
    assert("edges"@.len() != "triton"@.len());
    lemma_has_key_iff(fs, "triton"@);
}

/// Runs `steps` steps of the standard cycle on `engine` from the state of
/// the text's UIR graph.
fn run_text(engine: &Engine, input_text: &str, steps: usize, rd: &RunDescriptor) -> (r: Result<(JsonValue, EngineTrace), CoreError>)
    requires
        run_accepted(
            engine.registry.names(),
            |ro: OperatorRole, s: Json| engine.registry.step(ro, s, *rd),
            |ro: OperatorRole, s: Json| engine.registry.accepts(ro, s),
            default_cycle(),
            text_start(input_text@),
            steps as nat,
        ),
    ensures
        r matches Ok((state, trace)) ==> run_result(
            engine.registry.names(),
            default_cycle(),
            text_start(input_text@),
            state@,
            trace@,
            steps as nat,
        ) && run_from(
            engine.registry.names(),
            |ro: OperatorRole, s: Json| engine.registry.step(ro, s, *rd),
            default_cycle(),
            text_start(input_text@),
            steps as nat,
        ) == Some((state@, records(trace@))),
        r is Ok <==> run_from(
            engine.registry.names(),
            |ro: OperatorRole, s: Json| engine.registry.step(ro, s, *rd),
            default_cycle(),
            text_start(input_text@),
            steps as nat,
        ) is Some,
        (forall|i: int| 0 <= i < steps ==> engine.registry.total_roles().contains(#[trigger] cycle_role(default_cycle(), i)))
            ==> r is Ok,
{
    let graph = text_to_uir("input", input_text);
    proof {
        lemma_text_graph_float_free("input"@, input_text@);
        lemma_graph_json_float_free(graph@);
        lemma_float_free_digest(graph_json(graph@));
    }
    let sigma = init_sigma_from_uir("run", &graph, rd)?;
    let program = Program::psp_core_default_cycle();
    proof {
        lemma_graph_json_state_ok(graph@);
    }
    engine.run(&sigma.payload, &program, rd, steps)
}

/// Runs `steps` steps of the patch engine from the state of the text's UIR
/// graph.
pub fn run_with_input(input_text: &str, steps: usize, rd: &RunDescriptor) -> (r: Result<(JsonValue, EngineTrace), CoreError>)
    ensures
        r matches Ok((state, trace)) && run_result(
            v1_names(),
            default_cycle(),
            text_start(input_text@),
            state@,
            trace@,
            steps as nat,
        ) && patch_run(*rd, text_start(input_text@), steps as nat) == Some((state@, records(trace@))),
{
    let engine = build_engine();
    proof {
        assert((|ro: OperatorRole, s: Json| engine.registry.step(ro, s, *rd)) =~= (|ro: OperatorRole, s: Json|
            patch_step(ro, v1_name(ro), s, *rd)));
        assert((|ro: OperatorRole, s: Json| engine.registry.accepts(ro, s)) =~= (|ro: OperatorRole, s: Json|
            assignable(s)));
        lemma_patch_run_accepted(*rd, text_start(input_text@), steps as nat);
    }
    run_text(&engine, input_text, steps, rd)
}

/// The operator names of the Triton engine: the Triton operators for
/// Solve, Measure, Gate and Emit, the patch operators for the other roles.
pub open spec fn triton_name(r: OperatorRole) -> Seq<char> {
    match r {
        OperatorRole::Solve => "triton_step"@,
        OperatorRole::Measure => "triton_measure_sigma"@,
        OperatorRole::Gate => "triton_gate_solve_coagula"@,
        OperatorRole::Emit => "triton_tic_crystallize"@,
        _ => v1_name(r),
    }
}

pub open spec fn triton_names() -> Map<OperatorRole, Seq<char>> {
    Map::new(|r: OperatorRole| true, |r: OperatorRole| triton_name(r))
}

/// The roles whose operator in the Triton engine is total: those of the
/// patch operators.
pub open spec fn triton_total_roles() -> Set<OperatorRole> {
    Set::new(
        |r: OperatorRole|
            !(r is Solve || r is Measure || r is Gate || r is Emit),
    )
}

/// The Triton engine's parameters: delta 1, solve threshold 500000,
/// coagula threshold 250000, at least one crystallized point.
fn triton_context(rd: &RunDescriptor) -> (c: TritonContext)
    ensures
        rd_json(c.rd) == rd_json(*rd),
        c.spiral_delta_q == 1,
        c.solve_threshold_q == 500_000,
        c.coagula_threshold_q == 250_000,
        c.tic_min_points == 1,
{
    TritonContext {
        rd: rd.copy(),
        spiral_delta_q: 1,
        solve_threshold_q: 500_000,
        coagula_threshold_q: 250_000,
        tic_min_points: 1,
    }
}

/// The steps of the Triton engine: a spiral turn with delta 1 (Solve),
/// measuring (Measure), Solve/Coagula with thresholds 500000 and 250000
/// (Gate), crystallizing at least one point (Emit), and patch steps for the
/// other roles.
pub open spec fn triton_step_of(r: OperatorRole, state: Json, rd: RunDescriptor) -> Option<(Json, Json)> {
    match r {
        OperatorRole::Solve => triton_turn(state, 1),
        OperatorRole::Measure => triton_measure(state),
        OperatorRole::Gate => triton_gate(state, 500_000, 250_000),
        OperatorRole::Emit => triton_crystallize(state, 1),
        _ => patch_step(r, v1_name(r), state, rd),
    }
}

/// The first `k` steps of the standard cycle on the Triton engine from
/// `init`.
pub open spec fn triton_run(rd: RunDescriptor, init: Json, k: nat) -> Option<(Json, Seq<StepRecord>)> {
    run_from(triton_names(), |ro: OperatorRole, s: Json| triton_step_of(ro, s, rd), default_cycle(), init, k)
}

/// Patching a state leaves its `triton` member as it was.
proof fn lemma_patch_keeps_triton(s: Json, role: OperatorRole)
    requires
        s is Object,
    ensures
        patched_state(s, role) is Object,
        json_get(patched_state(s, role), "triton"@) == json_get(s, "triton"@),
{
    lemma_literals_differ();
    let old_count = match json_get(s, "count"@) {
        Some(c) => match json_as_u64(c) {
            Some(n) => n,
            None => 0,
        },
        None => 0,
    };
    let x = Json::Number(JsonNumber::U64(saturating_inc(old_count)));
    let counted = json_set(s, "count"@, x);
    lemma_set_get_other(s, "count"@, x, "triton"@);
    lemma_set_get_other(counted, "last_role"@, Json::Str(role_name(role)), "triton"@);
}

/// On the Triton engine, a run over text fails at its third step: the
/// Measure operator finds no point, since the Solve step that makes one
/// comes later in the standard cycle.
#[verifier::spinoff_prover]
pub proof fn lemma_triton_text_run_stops(rd: RunDescriptor, input: Seq<char>, k: nat)
    requires
        k >= 3,
    ensures
        triton_run(rd, text_start(input), k) is None,
{
    let s0 = text_start(input);
    let f = |ro: OperatorRole, s: Json| triton_step_of(ro, s, rd);
    let p = default_cycle();
    let names = triton_names();
    if run_from(names, f, p, s0, 3) is Some {
        lemma_run_from_step(names, f, p, s0, 2);
        lemma_run_from_step(names, f, p, s0, 1);
        lemma_run_from_step(names, f, p, s0, 0);
        assert(0int % 9 == 0 && 1int % 9 == 1 && 2int % 9 == 2);
        assert(cycle_role(p, 0) == OperatorRole::Ingest);
        assert(cycle_role(p, 1) == OperatorRole::Canon);
        assert(cycle_role(p, 2) == OperatorRole::Measure);
        lemma_graph_json_state_ok(input_graph(input));
        let s1 = patched_state(s0, OperatorRole::Ingest);
        let s2 = patched_state(s1, OperatorRole::Canon);
        assert(run_from(names, f, p, s0, 1).unwrap().0 == s1);
        assert(run_from(names, f, p, s0, 2).unwrap().0 == s2);
        lemma_patch_keeps_triton(s0, OperatorRole::Ingest);
        lemma_patch_keeps_triton(s1, OperatorRole::Canon);
        assert(triton_index(s2, "last_point"@) == Json::Null);
        assert(triton_measure(s2) is None);
    }
    lemma_run_from_fails_after(names, f, p, s0, 3, k);
}

/// The states each operator of the Triton engine accepts.
pub open spec fn triton_accepts(r: OperatorRole, s: Json) -> bool {
    match r {
        OperatorRole::Solve => engine_state_ok(s),
        OperatorRole::Measure => true,
        OperatorRole::Gate => true,
        OperatorRole::Emit => true,
        _ => assignable(s),
    }
}

/// A Triton run over text reaches only states its operators accept.
pub proof fn lemma_triton_text_run_accepted(rd: RunDescriptor, input: Seq<char>, steps: nat)
    ensures
        run_accepted(
            triton_names(),
            |ro: OperatorRole, s: Json| triton_step_of(ro, s, rd),
            |ro: OperatorRole, s: Json| triton_accepts(ro, s),
            default_cycle(),
            text_start(input),
            steps,
        ),
{
    let f = |ro: OperatorRole, s: Json| triton_step_of(ro, s, rd);
    let p = default_cycle();
    let s0 = text_start(input);
    assert forall|k: nat| k < steps && #[trigger] run_from(triton_names(), f, p, s0, k) is Some implies triton_accepts(
        cycle_role(p, k as int),
        run_from(triton_names(), f, p, s0, k).unwrap().0,
    ) by {
        assert(0int % 9 == 0 && 1int % 9 == 1 && 2int % 9 == 2);
        if k >= 3 {
            lemma_triton_text_run_stops(rd, input, k);
        } else if k == 1 {
            lemma_run_from_step(triton_names(), f, p, s0, 0);
        }
    }
}

/// An engine with the Triton operators for Solve, Measure, Gate and Emit
/// and patch operators for the other roles.
pub fn build_triton_engine(rd: &RunDescriptor) -> (e: Engine)
    ensures
        e.registry.names() == triton_names(),
        e.registry.total_roles() == triton_total_roles(),
        forall|r: OperatorRole, state: Json, rd2: RunDescriptor|
            #[trigger] e.registry.step(r, state, rd2) == triton_step_of(r, state, rd2),
        forall|r: OperatorRole, state: Json| #[trigger] e.registry.accepts(r, state) == triton_accepts(r, state),
{
    let mut reg = OperatorRegistry::new();
    reg.register(Box::new(TritonStep { ctx: triton_context(rd) }));
    reg.register(Box::new(TritonMeasureSigma));
    reg.register(Box::new(TritonGateSolveCoagula { ctx: triton_context(rd) }));
    reg.register(Box::new(TritonTICCrystallize { ctx: triton_context(rd) }));
    reg.register(Box::new(JsonPatchOp { role: OperatorRole::Ingest, name: "ingest_v1" }));
    reg.register(Box::new(JsonPatchOp { role: OperatorRole::Canon, name: "canon_v1" }));
    reg.register(Box::new(JsonPatchOp { role: OperatorRole::Morph, name: "morph_v1" }));
    reg.register(Box::new(JsonPatchOp { role: OperatorRole::Select, name: "select_v1" }));
    reg.register(Box::new(JsonPatchOp { role: OperatorRole::Merge, name: "merge_v1" }));
    assert(reg.names() =~= triton_names());
    assert(reg.total_roles() =~= triton_total_roles());
    assert forall|r: OperatorRole, state: Json, rd2: RunDescriptor|
        #[trigger] reg.step(r, state, rd2) == triton_step_of(r, state, rd2) by {
        match r {
            OperatorRole::Ingest => {},
            OperatorRole::Canon => {},
            OperatorRole::Measure => {},
            OperatorRole::Solve => {},
            OperatorRole::Morph => {},
            OperatorRole::Gate => {},
            OperatorRole::Select => {},
            OperatorRole::Merge => {},
            OperatorRole::Emit => {},
        }
    }
    assert forall|r: OperatorRole, state: Json| #[trigger] reg.accepts(r, state) == triton_accepts(r, state) by {
        match r {
            OperatorRole::Ingest => {},
            OperatorRole::Canon => {},
            OperatorRole::Measure => {},
            OperatorRole::Solve => {},
            OperatorRole::Morph => {},
            OperatorRole::Gate => {},
            OperatorRole::Select => {},
            OperatorRole::Merge => {},
            OperatorRole::Emit => {},
        }
    }
    Engine { registry: reg }
}

/// Runs `steps` steps of the Triton engine from the state of the text's
/// UIR graph.
pub fn run_with_input_triton(input_text: &str, steps: usize, rd: &RunDescriptor) -> (r: Result<
    (JsonValue, EngineTrace),
    CoreError,
>)
    ensures
        r is Ok <==> steps <= 2,
        r matches Ok((state, trace)) ==> run_result(
            triton_names(),
            default_cycle(),
            text_start(input_text@),
            state@,
            trace@,
            steps as nat,
        ) && triton_run(*rd, text_start(input_text@), steps as nat) == Some((state@, records(trace@))),
{
    let engine = build_triton_engine(rd);
    proof {
        assert((|ro: OperatorRole, s: Json| engine.registry.step(ro, s, *rd)) =~= (|ro: OperatorRole, s: Json|
            triton_step_of(ro, s, *rd)));
        assert((|ro: OperatorRole, s: Json| engine.registry.accepts(ro, s)) =~= (|ro: OperatorRole, s: Json|
            triton_accepts(ro, s)));
        lemma_triton_text_run_accepted(*rd, input_text@, steps as nat);
        if steps >= 3 {
            lemma_triton_text_run_stops(*rd, input_text@, steps as nat);
        } else {
            assert forall|i: int| 0 <= i < steps implies triton_total_roles().contains(
                #[trigger] cycle_role(default_cycle(), i),
            ) by {
                assert(0int % 9 == 0 && 1int % 9 == 1);
            }
        }
    }
    run_text(&engine, input_text, steps, rd)
}

} // verus!
