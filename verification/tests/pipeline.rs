use psp5d::errors::CoreError;
use psp5d::pipeline::{
    digest_input_text, replay_check, replay_exit_code, run_exit_code, run_message, run_pipeline, ReplayOutcome,
};
use psp5d::rd::{CanonSettings, FloatPolicy, RunDescriptor, SeedPolicy};

fn rd() -> RunDescriptor {
    RunDescriptor {
        spec_version: "1.1".to_string(),
        engine_version: "0.1.0".to_string(),
        model_pack_version: "0.1.0".to_string(),
        seed_policy: SeedPolicy::Unseeded,
        io_policy: vec![],
        normalization_profile: "default".to_string(),
        canon: CanonSettings {
            float_policy: FloatPolicy::Q16_16RoundHalfEven,
        },
    }
}

#[test]
fn a_run_commits_and_links_its_artifacts() {
    let input = digest_input_text("some input\n", &rd()).unwrap();
    assert_eq!(input.len(), 71);
    let rep = run_pipeline(&rd(), &input);
    assert!(rep.committed);
    assert_eq!(run_exit_code(rep.committed), 0);
    assert_eq!(run_message(rep.committed), "run complete");
    assert_eq!(run_exit_code(false), 10);
    assert_eq!(run_message(false), "gate failed: valid run but no commit");
    assert_eq!(rep.trace.len(), 10);
    assert_eq!(rep.ledger.len(), 10);
    assert_eq!(rep.head_digest, rep.trace[9].out_digest);
    assert_eq!(rep.manifest.head_digest, rep.head_digest);
    assert_eq!(rep.manifest.trace_digest, rep.evidence.trace_digest);
    assert_eq!(rep.manifest.input_digest, input);
    assert_eq!(rep.ledger[9].digest, rep.head_digest);
}

#[test]
fn a_recorded_run_replays() {
    let input = digest_input_text("abc", &rd()).unwrap();
    let rep = run_pipeline(&rd(), &input);
    let r = replay_check(&rep.trace, &rep.evidence, &rep.manifest, &input, &rd());
    assert!(matches!(r, ReplayOutcome::Replayed));
    assert_eq!(replay_exit_code(&r), 0);
}

#[test]
fn a_tampered_trace_diverges_at_the_tampered_step() {
    let input = digest_input_text("abc", &rd()).unwrap();
    let rep = run_pipeline(&rd(), &input);
    let mut trace = rep.trace.clone();
    trace[0].out_digest =
        "sha256:ffffffffffffffffffffffffffffffffffffffffffffffffffffffffffffffff".to_string();
    let r = replay_check(&trace, &rep.evidence, &rep.manifest, &input, &rd());
    match &r {
        ReplayOutcome::Diverged(d) => {
            assert_eq!(d.step, 0);
            assert_eq!(d.role, "ingest");
            assert_eq!(d.actual_out_digest, rep.trace[0].out_digest);
        }
        _ => panic!("expected a divergence"),
    }
    assert_eq!(replay_exit_code(&r), 30);
    let short = rep.trace[..4].to_vec();
    match replay_check(&short, &rep.evidence, &rep.manifest, &input, &rd()) {
        ReplayOutcome::Diverged(d) => {
            assert_eq!(d.step, 4);
            assert_eq!(d.expected_out_digest, "<missing>");
        }
        _ => panic!("expected a divergence"),
    }
}

#[test]
fn a_replay_with_another_input_is_refused() {
    let input = digest_input_text("abc", &rd()).unwrap();
    let other = digest_input_text("abd", &rd()).unwrap();
    let rep = run_pipeline(&rd(), &input);
    let r = replay_check(&rep.trace, &rep.evidence, &rep.manifest, &other, &rd());
    match &r {
        ReplayOutcome::InputMismatch { expected, actual } => {
            assert_eq!(expected, &input);
            assert_eq!(actual, &other);
        }
        _ => panic!("expected an input mismatch"),
    }
    assert_eq!(replay_exit_code(&r), 20);
    let mut ev = rep.evidence.clone();
    ev.trace_digest = "sha256:x".to_string();
    match replay_check(&rep.trace, &ev, &rep.manifest, &input, &rd()) {
        ReplayOutcome::Inconsistent(CoreError::DeterminismViolation(m)) => {
            assert_eq!(m, "manifest/evidence digest mismatch")
        }
        _ => panic!("expected an inconsistency"),
    }
}
