//! The Triton operators: a spiral turn (Solve), measuring the last point's
//! signature (Measure), the Solve/Coagula gate (Gate) and TIC
//! crystallization (Emit). Each keeps its working data under the state's
//! `triton` member.
use vstd::prelude::*;

use crate::canon_jcs::{float_free, lemma_float_free_list, lemma_float_free_members};
use crate::digest::json_digest;
use crate::errors::CoreError;
use crate::json::{
    fields_push, items_push, json_as_bool, json_get, json_index, json_set2, json_str, view_fields, view_items, Json,
    JsonNumber, JsonValue,
};
use crate::operators::{
    engine_state_ok, lemma_index_float_free, lemma_nested_member, lemma_set_triton_member, EngineOperator,
    OperatorRole,
};
use crate::rd::RunDescriptor;
use crate::text::string_of;
use crate::triton::solve_coagula_gate::{
    coagula_passes, evaluate_solve_coagula, gate_doc, gate_evidence_json, solve_passes,
};
use crate::triton::spectral::{
    decode_signature, int_json, sat_add_i32, sat_i32, signature_json, weights_fit, SpectralEvaluator, SpectralSignature,
    TritonContext,
};
use crate::triton::spiral::{
    coords_after, exploration_point, lemma_spiral_docs_float_free, momentum_after, point_data, point_doc,
    point_json, point_of, point_payload, points_of, spiral_doc, spiral_of, spiral_ready, turn_ready,
    ExplorationPoint, SpiralState,
};
use crate::triton::tic_crystallize::{
    crystal_digest_of, crystal_doc, crystal_json, crystallize, selected_ids, TicCrystallization,
};

verus! {

/// An evaluator whose signature is a fixed function of the coordinates.
#[derive(Debug, Clone, Copy)]
pub struct DeterministicEvaluator;

/// psi sums the even axes, rho the odd ones, omega weighs axis `i` by
/// `i + 1`; every sum saturates.
pub open spec fn deterministic_signature(c: Seq<i32>) -> SpectralSignature {
    SpectralSignature {
        psi_q: sat_i32(sat_i32(c[0] + c[2]) + c[4]),
        rho_q: sat_i32(c[1] + c[3]),
        omega_q: sat_i32(sat_i32(sat_i32(sat_i32(c[0] + c[1] * 2) + c[2] * 3) + c[3] * 4) + c[4] * 5),
    }
}

impl SpectralEvaluator for DeterministicEvaluator {
    /// Every weighted coordinate fits in an `i32`.
    open spec fn spec_accepts(&self, coords: Seq<i32>, ctx: TritonContext) -> bool {
        weights_fit(coords)
    }

    open spec fn spec_evaluate(&self, coords: Seq<i32>, ctx: TritonContext) -> SpectralSignature {
        deterministic_signature(coords)
    }

    fn evaluate(&mut self, coords_q: [i32; 5], ctx: &TritonContext) -> (r: SpectralSignature) {
        let c = coords_q;
        let psi_q = sat_add_i32(sat_add_i32(c[0], c[2]), c[4]);
        let rho_q = sat_add_i32(c[1], c[3]);
        let omega_q = sat_add_i32(
            sat_add_i32(sat_add_i32(sat_add_i32(c[0], c[1] * 2), c[2] * 3), c[3] * 4),
            c[4] * 5,
        );
        SpectralSignature { psi_q, rho_q, omega_q }
    }
}

/// The state's `triton.<k>` member, if present.
pub open spec fn triton_member(state: Json, k: Seq<char>) -> Option<Json> {
    match json_get(state, "triton"@) {
        Some(t) => json_get(t, k),
        None => None,
    }
}

/// `state.triton.<k>`, reading absent members as `null`.
pub open spec fn triton_index(state: Json, k: Seq<char>) -> Json {
    json_index(json_index(state, "triton"@), k)
}

pub open spec fn zeros5() -> Seq<i32> {
    seq![0i32, 0i32, 0i32, 0i32, 0i32]
}

/// The spiral a state holds: its `triton.spiral` member, or the origin at
/// rest when there is none (`None` when the member is malformed).
pub open spec fn stored_spiral(state: Json) -> Option<(Seq<i32>, Seq<i32>, u64)> {
    match triton_member(state, "spiral"@) {
        Some(v) => spiral_of(v),
        None => Some((zeros5(), zeros5(), 0)),
    }
}

/// The digest naming the point that one turn reaches.
pub open spec fn turn_point_digest(c: Seq<i32>, m: Seq<i32>, step: u64, delta: i32) -> Seq<char> {
    let c2 = coords_after(c, m, step, delta);
    json_digest(point_payload(c2, deterministic_signature(c2), (step + 1) as u64)).unwrap()
}

/// The state after a spiral turn: `triton.spiral` holds the turned spiral
/// and `triton.last_point` the point it reached.
pub open spec fn turned_state(state: Json, c: Seq<i32>, m: Seq<i32>, step: u64, delta: i32) -> Json {
    let c2 = coords_after(c, m, step, delta);
    json_set2(
        json_set2(state, "triton"@, "spiral"@, spiral_doc(c2, momentum_after(m, step, delta), (step + 1) as u64)),
        "triton"@,
        "last_point"@,
        point_doc(c2, deterministic_signature(c2), turn_point_digest(c, m, step, delta)),
    )
}

/// The evidence of a spiral turn: the point's digest and the new step.
pub open spec fn turn_evidence(c: Seq<i32>, m: Seq<i32>, step: u64, delta: i32) -> Json {
    Json::Object(
        seq![
            ("point_digest"@, Json::Str(turn_point_digest(c, m, step, delta))),
            ("step"@, Json::Number(JsonNumber::U64((step + 1) as u64))),
        ],
    )
}

/// A spiral turn on a state: defined when the stored spiral is well formed
/// and the turn does not overflow.
pub open spec fn triton_turn(state: Json, delta: i32) -> Option<(Json, Json)> {
    match stored_spiral(state) {
        Some((c, m, step)) => if turn_ready(c, m, step, delta) {
            Some((turned_state(state, c, m, step, delta), turn_evidence(c, m, step, delta)))
        } else {
            None
        },
        None => None,
    }
}

/// Whether a spiral turn from `s` is defined.
fn turn_fits(s: &SpiralState, ctx: &TritonContext) -> (r: bool)
    ensures
        r == spiral_ready(*s, ctx.spiral_delta_q),
{
    if s.step > u64::MAX - 4 || ctx.spiral_delta_q == i32::MIN {
        return false;
    }
    let mut probe = SpiralState { coords_q: s.coords_q, momentum_q: s.momentum_q, step: s.step };
    probe.advance(ctx);
    let c = probe.coords_q;
    let w1: i64 = c[1] as i64 * 2;
    let w2: i64 = c[2] as i64 * 3;
    let w3: i64 = c[3] as i64 * 4;
    let w4: i64 = c[4] as i64 * 5;
    let lo = i32::MIN as i64;
    let hi = i32::MAX as i64;
    lo <= w1 && w1 <= hi && lo <= w2 && w2 <= hi && lo <= w3 && w3 <= hi && lo <= w4 && w4 <= hi
}

/// One spiral turn per step.
#[derive(Debug, Clone)]
pub struct TritonStep {
    pub ctx: TritonContext,
}

impl EngineOperator for TritonStep {
    open spec fn spec_name(&self) -> Seq<char> {
        "triton_step"@
    }

    open spec fn spec_role(&self) -> OperatorRole {
        OperatorRole::Solve
    }

    open spec fn spec_total(&self) -> bool {
        false
    }

    /// It stores into `triton`: the state is `null` or an object whose `triton`
    /// member is `null` or an object.
    open spec fn spec_accepts(&self, state: Json) -> bool {
        engine_state_ok(state)
    }

    open spec fn spec_step(&self, state: Json, rd: RunDescriptor) -> Option<(Json, Json)> {
        triton_turn(state, self.ctx.spiral_delta_q)
    }

    fn name(&self) -> (r: &'static str) {
        "triton_step"
    }

    fn role(&self) -> (r: OperatorRole) {
        OperatorRole::Solve
    }

    /// Turns the stored spiral once, evaluates the new point with the
    /// deterministic evaluator, and stores both. Fails when the stored
    /// spiral is malformed, or when the turn would overflow.
    #[verifier::spinoff_prover]
    #[verifier::rlimit(40)]
    fn execute(&self, state: &JsonValue, rd: &RunDescriptor) -> (r: Result<(JsonValue, JsonValue), CoreError>)
        ensures
            r matches Err(e) ==> (stored_spiral(state@) is None ==> e is Json) && (stored_spiral(state@) is Some
                ==> e is DeterminismViolation),
    {
        let delta = self.ctx.spiral_delta_q;
        let member = match state.get("triton") {
            Some(t) => t.get("spiral"),
            None => None,
        };
        let mut spiral = match member {
            Some(v) => match SpiralState::from_json(v) {
                Some(s) => s,
                None => {
                    return Err(CoreError::Json(string_of("triton.spiral is not a spiral state")));
                },
            },
            None => SpiralState { coords_q: [0; 5], momentum_q: [0; 5], step: 0 },
        };
        proof {
            if member is None {
                assert(spiral.coords_q@ =~= zeros5());
                assert(spiral.momentum_q@ =~= zeros5());
            }
        }
        let ghost s0 = spiral;
        assert(stored_spiral(state@) == Some((s0.coords_q@, s0.momentum_q@, s0.step)));
        if !turn_fits(&spiral, &self.ctx) {
            return Err(CoreError::DeterminismViolation(string_of("spiral turn overflows")));
        }
        spiral.advance(&self.ctx);
        let mut evaluator = DeterministicEvaluator;
        let sigma = evaluator.evaluate(spiral.coords_q, &self.ctx);
        let point = exploration_point(spiral.coords_q, sigma, spiral.step, &self.ctx.rd);
        let mut next = state.deep_clone();
        let spiral_v = spiral.to_json();
        let point_v = point.to_json();
        let ghost j0 = next@;
        proof {
            lemma_set_triton_member(j0, "spiral"@, spiral_v@);
            lemma_set_triton_member(json_set2(j0, "triton"@, "spiral"@, spiral_v@), "last_point"@, point_v@);
            lemma_spiral_docs_float_free(spiral.coords_q@, spiral.momentum_q@, sigma, spiral.step, point.id_digest@);
        }
        next.set2("triton", "spiral", spiral_v);
        next.set2("triton", "last_point", point_v);
        let mut ev: Vec<(String, JsonValue)> = Vec::new();
        fields_push(&mut ev, "point_digest", json_str(point.id_digest.as_str()));
        fields_push(&mut ev, "step", JsonValue::Number(JsonNumber::U64(spiral.step)));
        assert(view_fields(ev@) =~= turn_evidence(s0.coords_q@, s0.momentum_q@, s0.step, delta)->Object_0);
        let evidence = JsonValue::Object(ev);
        proof {
            let fs = evidence@->Object_0;
            lemma_float_free_members(fs, fs.len());
        }
        assert(next@ == turned_state(state@, s0.coords_q@, s0.momentum_q@, s0.step, delta));
        Ok((next, evidence))
    }
}

/// The step of measuring: the last point's signature becomes
/// `triton.sigma_measured`, and the evidence is `{"measured": signature}`.
pub open spec fn triton_measure(state: Json) -> Option<(Json, Json)> {
    match point_of(triton_index(state, "last_point"@)) {
        Some((_, sig, _)) => Some(
            (
                json_set2(state, "triton"@, "sigma_measured"@, signature_json(sig)),
                Json::Object(seq![("measured"@, signature_json(sig))]),
            ),
        ),
        None => None,
    }
}

/// Copies the last point's signature to `triton.sigma_measured`.
#[derive(Debug, Clone)]
pub struct TritonMeasureSigma;

impl EngineOperator for TritonMeasureSigma {
    open spec fn spec_name(&self) -> Seq<char> {
        "triton_measure_sigma"@
    }

    open spec fn spec_role(&self) -> OperatorRole {
        OperatorRole::Measure
    }

    open spec fn spec_total(&self) -> bool {
        false
    }

    /// Any state: without a stored point it fails.
    open spec fn spec_accepts(&self, state: Json) -> bool {
        true
    }

    open spec fn spec_step(&self, state: Json, rd: RunDescriptor) -> Option<(Json, Json)> {
        triton_measure(state)
    }

    fn name(&self) -> (r: &'static str) {
        "triton_measure_sigma"
    }

    fn role(&self) -> (r: OperatorRole) {
        OperatorRole::Measure
    }

    /// Reads `triton.last_point` and stores its signature as
    /// `triton.sigma_measured`. Fails when there is no well-formed last
    /// point.
    fn execute(&self, state: &JsonValue, rd: &RunDescriptor) -> (r: Result<(JsonValue, JsonValue), CoreError>)
        ensures
            r matches Err(e) ==> e is Json,
    {
        let lp = state.index("triton").index("last_point");
        let point = match ExplorationPoint::from_json(&lp) {
            Some(p) => p,
            None => {
                return Err(CoreError::Json(string_of("triton.last_point is not a point")));
            },
        };
        proof {
            lemma_nested_member(state@, "triton"@, "last_point"@);
        }
        let mut next = state.deep_clone();
        let sv = point.sigma.to_json();
        proof {
            lemma_set_triton_member(next@, "sigma_measured"@, sv@);
            lemma_spiral_docs_float_free(point.coords_q@, point.coords_q@, point.sigma, 0, point.id_digest@);
        }
        next.set2("triton", "sigma_measured", sv);
        let mut ev: Vec<(String, JsonValue)> = Vec::new();
        fields_push(&mut ev, "measured", point.sigma.to_json());
        assert(view_fields(ev@) =~= seq![("measured"@, signature_json(point.sigma))]);
        let evidence = JsonValue::Object(ev);
        proof {
            let fs = evidence@->Object_0;
            lemma_float_free_members(fs, fs.len());
        }
        Ok((next, evidence))
    }
}

/// The JSON form of Solve/Coagula evidence for signature `s` under the two
/// thresholds, sealed by `digest`.
pub open spec fn gate_json(s: SpectralSignature, solve_threshold_q: i32, coagula_threshold_q: i32, digest: Seq<char>) -> Json {
    let sp = solve_passes(s, solve_threshold_q);
    let cp = coagula_passes(s, coagula_threshold_q);
    Json::Object(
        seq![
            ("predicate_id"@, Json::Str("triton.solve_coagula"@)),
            ("predicate_ver"@, Json::Str("1"@)),
            ("solve_threshold_q"@, int_json(solve_threshold_q)),
            ("coagula_threshold_q"@, int_json(coagula_threshold_q)),
            ("measured_psi_q"@, int_json(s.psi_q)),
            ("measured_rho_q"@, int_json(s.rho_q)),
            ("measured_omega_q"@, int_json(s.omega_q)),
            ("solve_pass"@, Json::Bool(sp)),
            ("coagula_pass"@, Json::Bool(cp)),
            ("outcome"@, Json::Bool(sp && cp)),
            ("evidence_digest"@, Json::Str(digest)),
        ],
    )
}

/// The step of gating the measured signature: `triton.gate` holds the
/// evidence, `triton.gate_pass` the outcome, and the evidence document is
/// the step's evidence. Defined when a signature is measured and the
/// evidence document has canonical text.
pub open spec fn triton_gate(state: Json, solve_threshold_q: i32, coagula_threshold_q: i32) -> Option<(Json, Json)> {
    match decode_signature(triton_index(state, "sigma_measured"@)) {
        None => None,
        Some(sig) => {
            let outcome = solve_passes(sig, solve_threshold_q) && coagula_passes(sig, coagula_threshold_q);
            match json_digest(gate_doc(sig, solve_threshold_q, coagula_threshold_q, outcome)) {
                None => None,
                Some(d) => {
                    let ej = gate_json(sig, solve_threshold_q, coagula_threshold_q, d);
                    Some(
                        (
                            json_set2(
                                json_set2(state, "triton"@, "gate"@, ej),
                                "triton"@,
                                "gate_pass"@,
                                Json::Bool(outcome),
                            ),
                            ej,
                        ),
                    )
                },
            }
        },
    }
}

/// Gates the measured signature with Solve/Coagula.
#[derive(Debug, Clone)]
pub struct TritonGateSolveCoagula {
    pub ctx: TritonContext,
}

impl EngineOperator for TritonGateSolveCoagula {
    open spec fn spec_name(&self) -> Seq<char> {
        "triton_gate_solve_coagula"@
    }

    open spec fn spec_role(&self) -> OperatorRole {
        OperatorRole::Gate
    }

    open spec fn spec_total(&self) -> bool {
        false
    }

    /// Any state: without a measured signature it fails.
    open spec fn spec_accepts(&self, state: Json) -> bool {
        true
    }

    open spec fn spec_step(&self, state: Json, rd: RunDescriptor) -> Option<(Json, Json)> {
        triton_gate(state, self.ctx.solve_threshold_q, self.ctx.coagula_threshold_q)
    }

    fn name(&self) -> (r: &'static str) {
        "triton_gate_solve_coagula"
    }

    fn role(&self) -> (r: OperatorRole) {
        OperatorRole::Gate
    }

    /// Evaluates Solve/Coagula on `triton.sigma_measured` and stores the
    /// evidence and the outcome. Fails when there is no well-formed measured
    /// signature, or when the evidence document has no canonical text.
    fn execute(&self, state: &JsonValue, rd: &RunDescriptor) -> (r: Result<(JsonValue, JsonValue), CoreError>)
        ensures
            r matches Err(e) ==> (decode_signature(triton_index(state@, "sigma_measured"@)) is None ==> e is Json)
                && (decode_signature(triton_index(state@, "sigma_measured"@)) is Some ==> e is NumberCanonicalizationFailed),
    {
        let sm = state.index("triton").index("sigma_measured");
        let sigma = match SpectralSignature::from_json(&sm) {
            Some(s) => s,
            None => {
                return Err(CoreError::Json(string_of("triton.sigma_measured is not a signature")));
            },
        };
        proof {
            lemma_nested_member(state@, "triton"@, "sigma_measured"@);
        }
        let gate = evaluate_solve_coagula(&sigma, &self.ctx)?;
        let mut next = state.deep_clone();
        let gv = gate.to_json();
        let ghost j0 = next@;
        proof {
            lemma_set_triton_member(j0, "gate"@, gv@);
            lemma_set_triton_member(json_set2(j0, "triton"@, "gate"@, gv@), "gate_pass"@, Json::Bool(gate.outcome));
        }
        next.set2("triton", "gate", gv);
        next.set2("triton", "gate_pass", JsonValue::Bool(gate.outcome));
        assert(gate_evidence_json(gate) == gate_json(
            sigma,
            self.ctx.solve_threshold_q,
            self.ctx.coagula_threshold_q,
            gate.evidence_digest@,
        ));
        Ok((next, gate.to_json()))
    }
}

/// Gating has passed: `triton.gate_pass` is `true`.
pub open spec fn gate_passed(state: Json) -> bool {
    json_as_bool(triton_index(state, "gate_pass"@)) == Some(true)
}

/// The points a state holds: those of `triton.points` (none when absent),
/// then `triton.last_point` when present; `None` when either is malformed.
pub open spec fn stored_points(state: Json) -> Option<Seq<(Seq<i32>, SpectralSignature, Seq<char>)>> {
    let base = match triton_member(state, "points"@) {
        Some(v) => points_of(v),
        None => Some(seq![]),
    };
    match base {
        None => None,
        Some(b) => match triton_member(state, "last_point"@) {
            Some(l) => match point_of(l) {
                Some(p) => Some(b.push(p)),
                None => None,
            },
            None => Some(b),
        },
    }
}

pub open spec fn points_array(ps: Seq<(Seq<i32>, SpectralSignature, Seq<char>)>) -> Json {
    Json::Array(ps.map_values(|x: (Seq<i32>, SpectralSignature, Seq<char>)| point_doc(x.0, x.1, x.2)))
}

pub open spec fn not_emitted() -> Json {
    Json::Object(seq![("emitted"@, Json::Bool(false)), ("reason"@, Json::Str("gate_failed"@))])
}

pub open spec fn emitted(crystal_digest: Seq<char>) -> Json {
    Json::Object(seq![("emitted"@, Json::Bool(true)), ("crystal_digest"@, Json::Str(crystal_digest))])
}

/// The step of crystallizing: without a passed gating the state stays as it
/// is and nothing is emitted; otherwise `triton.points` holds the stored
/// points, `triton.tic` their crystallization, and the evidence reports
/// its digest.
pub open spec fn triton_crystallize(state: Json, tic_min_points: usize) -> Option<(Json, Json)> {
    if !gate_passed(state) {
        Some((state, not_emitted()))
    } else {
        match stored_points(state) {
            None => None,
            Some(ps) => Some(
                (
                    json_set2(
                        json_set2(state, "triton"@, "points"@, points_array(ps)),
                        "triton"@,
                        "tic"@,
                        crystal_doc(ps, tic_min_points),
                    ),
                    emitted(crystal_digest_of(ps, tic_min_points)),
                ),
            ),
        }
    }
}

/// The JSON array of a list of points.
fn points_to_json(ps: &Vec<ExplorationPoint>) -> (r: JsonValue)
    ensures
        r@ == points_array(ps@.map_values(|p: ExplorationPoint| point_data(p))),
        float_free(r@),
{
    let mut items: Vec<JsonValue> = Vec::new();
    for i in 0..ps.len()
        invariant
            view_items(items@) == ps@.take(i as int).map_values(|p: ExplorationPoint| point_json(p)),
            forall|j: int| 0 <= j < i ==> float_free(#[trigger] view_items(items@)[j]),
    {
        let ghost before = view_items(items@);
        let pv = ps[i].to_json();
        proof {
            lemma_spiral_docs_float_free(
                ps@[i as int].coords_q@,
                ps@[i as int].coords_q@,
                ps@[i as int].sigma,
                0,
                ps@[i as int].id_digest@,
            );
        }
        items_push(&mut items, pv);
        assert(ps@.take(i + 1).map_values(|p: ExplorationPoint| point_json(p)) =~= ps@.take(i as int).map_values(
            |p: ExplorationPoint| point_json(p),
        ).push(point_json(ps@[i as int])));
        assert(forall|j: int| 0 <= j < i ==> view_items(items@)[j] == before[j]);
    }
    assert(ps@.take(ps@.len() as int) == ps@);
    assert(ps@.map_values(|p: ExplorationPoint| point_json(p)) =~= ps@.map_values(
        |p: ExplorationPoint| point_data(p),
    ).map_values(|x: (Seq<i32>, SpectralSignature, Seq<char>)| point_doc(x.0, x.1, x.2)));
    let r = JsonValue::Array(items);
    proof {
        let iv = view_items(items@);
        lemma_float_free_list(iv, iv.len());
    }
    r
}

/// Crystallizes the points seen so far once gating has passed.
#[derive(Debug, Clone)]
pub struct TritonTICCrystallize {
    pub ctx: TritonContext,
}

impl EngineOperator for TritonTICCrystallize {
    open spec fn spec_name(&self) -> Seq<char> {
        "triton_tic_crystallize"@
    }

    open spec fn spec_role(&self) -> OperatorRole {
        OperatorRole::Emit
    }

    open spec fn spec_total(&self) -> bool {
        false
    }

    /// Any state: unless gating has passed it is left as it is.
    open spec fn spec_accepts(&self, state: Json) -> bool {
        true
    }

    open spec fn spec_step(&self, state: Json, rd: RunDescriptor) -> Option<(Json, Json)> {
        triton_crystallize(state, self.ctx.tic_min_points)
    }

    fn name(&self) -> (r: &'static str) {
        "triton_tic_crystallize"
    }

    fn role(&self) -> (r: OperatorRole) {
        OperatorRole::Emit
    }

    /// When gating has not passed, leaves the state as it is with the
    /// evidence `{"emitted": false, "reason": "gate_failed"}`. Otherwise
    /// collects the stored points, crystallizes them, stores points and
    /// crystallization, and reports the crystal digest. Fails when the
    /// stored points are malformed.
    fn execute(&self, state: &JsonValue, rd: &RunDescriptor) -> (r: Result<(JsonValue, JsonValue), CoreError>)
        ensures
            r matches Err(e) ==> e is Json,
    {
        let gate_pass = match state.index("triton").index("gate_pass").as_bool() {
            Some(b) => b,
            None => false,
        };
        if !gate_pass {
            let mut ev: Vec<(String, JsonValue)> = Vec::new();
            fields_push(&mut ev, "emitted", JsonValue::Bool(false));
            fields_push(&mut ev, "reason", json_str("gate_failed"));
            assert(view_fields(ev@) =~= not_emitted()->Object_0);
            let evidence = JsonValue::Object(ev);
            proof {
                let fs = evidence@->Object_0;
                lemma_float_free_members(fs, fs.len());
            }
            return Ok((state.deep_clone(), evidence));
        }
        proof {
            lemma_nested_member(state@, "triton"@, "gate_pass"@);
        }
        let triton = state.get("triton");
        let mut points: Vec<ExplorationPoint> = match triton {
            Some(t) => match t.get("points") {
                Some(v) => match ExplorationPoint::list_from_json(v) {
                    Some(ps) => ps,
                    None => {
                        return Err(CoreError::Json(string_of("triton.points is not a list of points")));
                    },
                },
                None => Vec::new(),
            },
            None => Vec::new(),
        };
        let ghost base = points@;
        let last = match triton {
            Some(t) => t.get("last_point"),
            None => None,
        };
        match last {
            Some(l) => match ExplorationPoint::from_json(l) {
                Some(p) => {
                    points.push(p);
                },
                None => {
                    return Err(CoreError::Json(string_of("triton.last_point is not a point")));
                },
            },
            None => {},
        }
        let ghost pd = points@.map_values(|p: ExplorationPoint| point_data(p));
        proof {
            let bd = base.map_values(|p: ExplorationPoint| point_data(p));
            if last is Some {
                assert(pd =~= bd.push(pd.last()));
            } else {
                assert(pd =~= bd);
            }
        }
        assert(stored_points(state@) == Some(pd));
        let crystal = crystallize(&points, &self.ctx).unwrap();
        let mut next = state.deep_clone();
        let pv = points_to_json(&points);
        let cv = crystal.to_json();
        let ghost j0 = next@;
        proof {
            lemma_set_triton_member(j0, "points"@, pv@);
            lemma_set_triton_member(json_set2(j0, "triton"@, "points"@, pv@), "tic"@, cv@);
        }
        next.set2("triton", "points", pv);
        next.set2("triton", "tic", cv);
        let mut ev: Vec<(String, JsonValue)> = Vec::new();
        fields_push(&mut ev, "emitted", JsonValue::Bool(true));
        fields_push(&mut ev, "crystal_digest", json_str(crystal.crystal_digest.as_str()));
        assert(view_fields(ev@) =~= emitted(crystal.crystal_digest@)->Object_0);
        let evidence = JsonValue::Object(ev);
        proof {
            let fs = evidence@->Object_0;
            lemma_float_free_members(fs, fs.len());
        }
        assert(cv@ == crystal_doc(pd, self.ctx.tic_min_points));
        Ok((next, evidence))
    }
}

} // verus!
