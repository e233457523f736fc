use psp5d::digest::digest_sha256_jcs;
use psp5d::errors::CoreError;
use psp5d::json::{JsonNumber, JsonValue};
use psp5d::model::pack::run_with_input_triton;
use psp5d::operators::EngineOperator;
use psp5d::rd::{CanonSettings, FloatPolicy, RunDescriptor, SeedPolicy};
use psp5d::triton::operators_triton::{
    DeterministicEvaluator, TritonGateSolveCoagula, TritonMeasureSigma, TritonStep, TritonTICCrystallize,
};
use psp5d::triton::solve_coagula_gate::evaluate_solve_coagula;
use psp5d::triton::spectral::{SpectralEvaluator, SpectralSignature, TritonContext};
use psp5d::triton::spiral::{ExplorationPoint, SpiralState};
use psp5d::triton::tic_crystallize::crystallize;

fn rd() -> RunDescriptor {
    RunDescriptor {
        spec_version: "1.1".to_string(),
        engine_version: "0.1.0".to_string(),
        model_pack_version: "0.1.0".to_string(),
        seed_policy: SeedPolicy::Unseeded,
        io_policy: vec![],
        normalization_profile: "default".to_string(),
        canon: CanonSettings {
            float_policy: FloatPolicy::Q16_16RoundHalfEven,
        },
    }
}

fn ctx(delta: i32, solve: i32, coagula: i32, min_points: usize) -> TritonContext {
    TritonContext {
        rd: rd(),
        spiral_delta_q: delta,
        solve_threshold_q: solve,
        coagula_threshold_q: coagula,
        tic_min_points: min_points,
    }
}

fn point(id: &str, psi: i32, rho: i32, omega: i32) -> ExplorationPoint {
    ExplorationPoint {
        coords_q: [1, 2, 3, 4, 5],
        sigma: SpectralSignature {
            psi_q: psi,
            rho_q: rho,
            omega_q: omega,
        },
        id_digest: id.to_string(),
    }
}

fn sv(s: &str) -> JsonValue {
    JsonValue::Str(s.to_string())
}

fn obj(members: Vec<(&str, JsonValue)>) -> JsonValue {
    JsonValue::Object(members.into_iter().map(|(k, v)| (k.to_string(), v)).collect())
}

#[test]
fn same_rd_same_state_same_spiral_points() {
    let ctx = ctx(3, 1_000_000, 1_000_000, 3);
    let mut a = SpiralState {
        coords_q: [0; 5],
        momentum_q: [1, 1, 1, 1, 1],
        step: 0,
    };
    let mut b = a.clone();
    let mut eval_a = DeterministicEvaluator;
    let mut eval_b = DeterministicEvaluator;

    for _ in 0..20 {
        let pa = a.next(&mut eval_a, &ctx).expect("step a");
        let pb = b.next(&mut eval_b, &ctx).expect("step b");
        assert_eq!(pa, pb);
    }
}

#[test]
fn spiral_turn_twists_each_axis() {
    let ctx = ctx(1, 0, 0, 1);
    let mut s = SpiralState {
        coords_q: [0; 5],
        momentum_q: [0; 5],
        step: 0,
    };
    let mut e = DeterministicEvaluator;
    let p = s.next(&mut e, &ctx).unwrap();
    assert_eq!(s.momentum_q, [-1, 0, 1, -1, 0]);
    assert_eq!(s.coords_q, [-1, 0, 1, -1, 0]);
    assert_eq!(s.step, 1);
    assert_eq!(p.coords_q, s.coords_q);
    assert_eq!(
        p.sigma,
        SpectralSignature {
            psi_q: 0,
            rho_q: -1,
            omega_q: -2
        }
    );
    let p2 = s.next(&mut e, &ctx).unwrap();
    assert_eq!(s.momentum_q, [-1, 1, 0, -1, 1]);
    assert_eq!(s.coords_q, [-2, 1, 1, -2, 1]);
    assert_ne!(p.id_digest, p2.id_digest);
    assert_eq!(p.id_digest.len(), 71);
}

#[test]
fn deterministic_evaluator_weighs_axes() {
    let mut e = DeterministicEvaluator;
    let s = e.evaluate([1, 2, 3, 4, 5], &ctx(1, 0, 0, 1));
    assert_eq!(
        s,
        SpectralSignature {
            psi_q: 9,
            rho_q: 6,
            omega_q: 55
        }
    );
    let big = e.evaluate([i32::MAX, 0, 1, 0, 0], &ctx(1, 0, 0, 1));
    assert_eq!(big.psi_q, i32::MAX);
    assert_eq!(big.omega_q, i32::MAX);
}

#[test]
fn tic_crystallization_is_deterministic() {
    let ctx = ctx(1, 100, 100, 2);
    let points = vec![
        point(
            "sha256:aaaaaaaaaaaaaaaaaaaaaaaaaaaaaaaaaaaaaaaaaaaaaaaaaaaaaaaaaaaaaaaa",
            100,
            100,
            100,
        ),
        point(
            "sha256:bbbbbbbbbbbbbbbbbbbbbbbbbbbbbbbbbbbbbbbbbbbbbbbbbbbbbbbbbbbbbbbb",
            100,
            100,
            100,
        ),
        point(
            "sha256:cccccccccccccccccccccccccccccccccccccccccccccccccccccccccccccccc",
            90,
            100,
            100,
        ),
    ];

    let c1 = crystallize(&points, &ctx).expect("c1");
    let c2 = crystallize(&points, &ctx).expect("c2");
    assert_eq!(c1, c2);
}

#[test]
fn crystallization_keeps_the_highest_scores() {
    let two = ctx(1, 100, 100, 2);
    let points = vec![point("low", 1, 1, 1), point("high", 50, 50, 50), point("mid", 10, 10, 10)];
    let c = crystallize(&points, &two).unwrap();
    assert_eq!(c.selected_point_digests, vec!["high".to_string(), "mid".to_string()]);
    let one = crystallize(&points, &ctx(1, 100, 100, 0)).unwrap();
    assert_eq!(one.selected_point_digests, vec!["high".to_string()]);
    let sealed = obj(vec![(
        "selected",
        JsonValue::Array(vec![sv("high"), sv("mid")]),
    )]);
    assert_eq!(c.crystal_digest, digest_sha256_jcs(&sealed, &rd()).unwrap());
}

#[test]
fn gate_evidence_is_replay_stable() {
    let ctx = ctx(2, 500_000, 250_000, 2);
    let sigma = SpectralSignature {
        psi_q: 10,
        rho_q: 20,
        omega_q: 30,
    };

    let g1 = evaluate_solve_coagula(&sigma, &ctx).expect("gate1");
    let g2 = evaluate_solve_coagula(&sigma, &ctx).expect("gate2");
    assert_eq!(g1, g2);
    assert!(g1.solve_pass && g1.coagula_pass && g1.outcome);

    let d1 = digest_sha256_jcs(&g1.to_json(), &ctx.rd).expect("d1");
    let d2 = digest_sha256_jcs(&g2.to_json(), &ctx.rd).expect("d2");
    assert_eq!(d1, d2);
}

#[test]
fn gate_thresholds_bound_magnitudes() {
    let sigma = SpectralSignature {
        psi_q: -100,
        rho_q: 50,
        omega_q: -60,
    };
    let g = evaluate_solve_coagula(&sigma, &ctx(1, 209, 60, 1)).unwrap();
    assert!(!g.solve_pass);
    assert!(g.coagula_pass);
    assert!(!g.outcome);
    let g = evaluate_solve_coagula(&sigma, &ctx(1, 210, -5, 1)).unwrap();
    assert!(g.solve_pass);
    assert!(!g.coagula_pass);
    assert_eq!(g.predicate_id, "triton.solve_coagula");
    assert_eq!(g.predicate_ver, "1");
}

#[test]
fn triton_operators_chain_through_the_state() {
    let step = TritonStep { ctx: ctx(1, 500_000, 250_000, 1) };
    let (s1, ev1) = step.execute(&JsonValue::Null, &rd()).unwrap();
    let step_member = match &ev1 {
        JsonValue::Object(f) => f.iter().find(|(k, _)| k == "step").map(|(_, v)| v),
        _ => None,
    };
    assert_eq!(step_member, Some(&JsonValue::Number(JsonNumber::U64(1))));
    let (s2, _) = TritonMeasureSigma.execute(&s1, &rd()).unwrap();
    let (s3, gate_ev) = TritonGateSolveCoagula { ctx: ctx(1, 500_000, 250_000, 1) }
        .execute(&s2, &rd())
        .unwrap();
    let passed = match &gate_ev {
        JsonValue::Object(f) => f.iter().any(|(k, v)| k == "outcome" && *v == JsonValue::Bool(true)),
        _ => false,
    };
    assert!(passed);
    let (_, emit_ev) = TritonTICCrystallize { ctx: ctx(1, 500_000, 250_000, 1) }
        .execute(&s3, &rd())
        .unwrap();
    let emitted = match &emit_ev {
        JsonValue::Object(f) => f.iter().any(|(k, v)| k == "emitted" && *v == JsonValue::Bool(true)),
        _ => false,
    };
    assert!(emitted);
}

#[test]
fn crystallize_waits_for_the_gate() {
    let op = TritonTICCrystallize { ctx: ctx(1, 1, 1, 1) };
    let (next, ev) = op.execute(&JsonValue::Null, &rd()).unwrap();
    assert_eq!(next, JsonValue::Null);
    assert_eq!(ev, obj(vec![("emitted", JsonValue::Bool(false)), ("reason", sv("gate_failed"))]));
}

#[test]
fn measuring_without_a_point_fails() {
    assert!(TritonMeasureSigma.execute(&JsonValue::Null, &rd()).is_err());
    let state = obj(vec![("triton", obj(vec![("spiral", sv("bad"))]))]);
    assert!(TritonStep { ctx: ctx(1, 1, 1, 1) }.execute(&state, &rd()).is_err());
}

#[test]
fn triton_engine_measures_before_any_point_exists() {
    let (_, trace) = run_with_input_triton("alpha beta", 2, &rd()).unwrap();
    assert_eq!(trace.len(), 2);
    assert_eq!(trace[1].operator_name, "canon_v1");
    let (_, again) = run_with_input_triton("alpha beta", 2, &rd()).unwrap();
    assert_eq!(trace, again);
    match run_with_input_triton("alpha beta", 9, &rd()) {
        Err(CoreError::Json(_)) => {}
        other => panic!("unexpected {:?}", other.map(|p| p.1)),
    }
    assert!(run_with_input_triton("", 3, &rd()).is_err());
    assert!(run_with_input_triton("", 0, &rd()).is_ok());
}
