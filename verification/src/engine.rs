//! The engine: runs a program's roles cyclically, recording a digest trace.
use vstd::prelude::*;

use crate::canon_jcs::float_free;
use crate::digest::{digest_sha256_jcs, digest_shape, json_digest};
use crate::errors::CoreError;
use crate::evidence::lemma_float_free_digest;
use crate::json::{Json, JsonValue};
use crate::operator_registry::OperatorRegistry;
use crate::operators::{role_name, EngineOperator, OperatorRole};
use crate::program::Program;
use crate::rd::RunDescriptor;
use crate::text::string_of;
use crate::trace::{records, EngineTrace, StepRecord, TraceEntry};

verus! {

/// An engine: the operators it runs, by role.
pub struct Engine {
    pub registry: OperatorRegistry,
}

/// The role of step `i` of a cyclic program.
pub open spec fn cycle_role(p: Seq<OperatorRole>, i: int) -> OperatorRole {
    p[i % (p.len() as int)]
}

/// Entry `i` of a trace records step `i`: its role, the name of the operator
/// registered for that role, and well-formed digests.
pub open spec fn entry_ok(names: Map<OperatorRole, Seq<char>>, p: Seq<OperatorRole>, e: TraceEntry, i: int) -> bool {
    &&& e.step == i
    &&& e.role@ == role_name(cycle_role(p, i))
    &&& names.contains_key(cycle_role(p, i))
    &&& e.operator_name@ == names[cycle_role(p, i)]
    &&& digest_shape(e.in_digest@)
    &&& digest_shape(e.out_digest@)
    &&& digest_shape(e.op_evidence_digest@)
}

/// What a successful run of `steps` steps produced: one entry per step; the
/// first input digest is that of the initial state; each step's output
/// digest is the next step's input digest; the last output digest is that
/// of the final state (which is the initial state when no step ran).
pub open spec fn run_result(
    names: Map<OperatorRole, Seq<char>>,
    p: Seq<OperatorRole>,
    initial: Json,
    state: Json,
    t: Seq<TraceEntry>,
    steps: nat,
) -> bool {
    &&& t.len() == steps
    &&& forall|i: int| 0 <= i < steps ==> entry_ok(names, p, #[trigger] t[i], i)
    &&& steps > 0 ==> json_digest(initial) == Some(t[0].in_digest@)
    &&& forall|i: int| 0 <= i < steps - 1 ==> #[trigger] t[i].out_digest@ == t[i + 1].in_digest@
    &&& steps > 0 ==> json_digest(state) == Some(t[steps - 1].out_digest@)
    &&& steps == 0 ==> state == initial
}

/// The state and step records after the first `k` steps of a run from
/// `init`: step `i` runs the step of the role `cycle_role(p, i)` on the
/// current state, and records the digests of the state before and after it
/// and of its evidence. `None` when some step has no operator, fails, or
/// meets a document without digest.
pub open spec fn run_from(
    names: Map<OperatorRole, Seq<char>>,
    step: spec_fn(OperatorRole, Json) -> Option<(Json, Json)>,
    p: Seq<OperatorRole>,
    init: Json,
    k: nat,
) -> Option<(Json, Seq<StepRecord>)>
    decreases k,
{
    if k == 0 {
        Some((init, seq![]))
    } else {
        match run_from(names, step, p, init, (k - 1) as nat) {
            None => None,
            Some((s, t)) => {
                let role = cycle_role(p, k - 1);
                if !names.contains_key(role) {
                    None
                } else {
                    match (json_digest(s), step(role, s)) {
                        (Some(d_in), Some((next, ev))) => match (json_digest(next), json_digest(ev)) {
                            (Some(d_out), Some(d_ev)) => Some(
                                (
                                    next,
                                    t.push(
                                        StepRecord {
                                            step: (k - 1) as u64,
                                            role: role_name(role),
                                            operator_name: names[role],
                                            in_digest: d_in,
                                            out_digest: d_out,
                                            op_evidence_digest: d_ev,
                                        },
                                    ),
                                ),
                            ),
                            _ => None,
                        },
                        _ => None,
                    }
                }
            },
        }
    }
}

/// Each step that a run reaches runs its operator on a state that the
/// operator accepts.
pub open spec fn run_accepted(
    names: Map<OperatorRole, Seq<char>>,
    step: spec_fn(OperatorRole, Json) -> Option<(Json, Json)>,
    accepts: spec_fn(OperatorRole, Json) -> bool,
    p: Seq<OperatorRole>,
    init: Json,
    steps: nat,
) -> bool {
    forall|k: nat|
        k < steps && #[trigger] run_from(names, step, p, init, k) is Some ==> accepts(
            cycle_role(p, k as int),
            run_from(names, step, p, init, k).unwrap().0,
        )
}

/// Once a run fails, it stays failed.
pub proof fn lemma_run_from_fails_after(
    names: Map<OperatorRole, Seq<char>>,
    step: spec_fn(OperatorRole, Json) -> Option<(Json, Json)>,
    p: Seq<OperatorRole>,
    init: Json,
    j: nat,
    k: nat,
)
    requires
        j <= k,
        run_from(names, step, p, init, j) is None,
    ensures
        run_from(names, step, p, init, k) is None,
    decreases k - j,
{
    if j < k {
        lemma_run_from_fails_after(names, step, p, init, j, (k - 1) as nat);
    }
}

/// A run that gets past step `k` got to step `k`, and the state after step
/// `k` is what that step made of the state before it.
pub proof fn lemma_run_from_step(
    names: Map<OperatorRole, Seq<char>>,
    step: spec_fn(OperatorRole, Json) -> Option<(Json, Json)>,
    p: Seq<OperatorRole>,
    init: Json,
    k: nat,
)
    requires
        run_from(names, step, p, init, k + 1) is Some,
    ensures
        run_from(names, step, p, init, k) is Some,
        step(cycle_role(p, k as int), run_from(names, step, p, init, k).unwrap().0) is Some,
        run_from(names, step, p, init, k + 1).unwrap().0 == step(
            cycle_role(p, k as int),
            run_from(names, step, p, init, k).unwrap().0,
        ).unwrap().0,
{
}

/// A run that reaches step `k` and finds no operator for its role fails
/// there, and so at every later step.
pub proof fn lemma_unregistered_fails(
    names: Map<OperatorRole, Seq<char>>,
    step: spec_fn(OperatorRole, Json) -> Option<(Json, Json)>,
    p: Seq<OperatorRole>,
    init: Json,
    k: nat,
    j: nat,
)
    requires
        k < j,
        run_from(names, step, p, init, k) is Some,
        !names.contains_key(cycle_role(p, k as int)),
    ensures
        run_from(names, step, p, init, j) is None,
{
    assert(run_from(names, step, p, init, k + 1) is None);
    lemma_run_from_fails_after(names, step, p, init, k + 1, j);
}

/// When a run reaches step `i` and fails there, `i` is the only step that
/// it reaches whose role has no operator, if any.
proof fn lemma_failing_step_unique(
    names: Map<OperatorRole, Seq<char>>,
    step: spec_fn(OperatorRole, Json) -> Option<(Json, Json)>,
    p: Seq<OperatorRole>,
    init: Json,
    i: nat,
    steps: nat,
)
    requires
        i < steps,
        run_from(names, step, p, init, i) is Some,
        run_from(names, step, p, init, i + 1) is None,
    ensures
        forall|k: int|
            0 <= k < steps && run_from(names, step, p, init, k as nat) is Some && !names.contains_key(
                #[trigger] cycle_role(p, k),
            ) ==> k == i,
{
    assert forall|k: int|
        0 <= k < steps && run_from(names, step, p, init, k as nat) is Some && !names.contains_key(
            #[trigger] cycle_role(p, k),
        ) implies k == i by {
        if k < i {
            lemma_unregistered_fails(names, step, p, init, k as nat, i);
        } else if k > i {
            lemma_run_from_fails_after(names, step, p, init, i + 1, k as nat);
        }
    }
}

impl Engine {
    /// Runs `steps` steps of `program` from `initial_state`: step `i` runs
    /// the operator registered for role `i mod |program|`. Each operator
    /// must accept the state it is given (an operator that sets members of a
    /// state that is neither `null` nor an object cannot run).
    pub fn run(&self, initial_state: &JsonValue, program: &Program, rd: &RunDescriptor, steps: usize) -> (r: Result<
        (JsonValue, EngineTrace),
        CoreError,
    >)
        requires
            steps == 0 || program.steps@.len() > 0,
            run_accepted(
                self.registry.names(),
                |ro: OperatorRole, s: Json| self.registry.step(ro, s, *rd),
                |ro: OperatorRole, s: Json| self.registry.accepts(ro, s),
                program.steps@,
                initial_state@,
                steps as nat,
            ),
        ensures
            r matches Ok((state, trace)) ==> run_result(
                self.registry.names(),
                program.steps@,
                initial_state@,
                state@,
                trace@,
                steps as nat,
            ),
            (exists|i: int| 0 <= i < steps && !self.registry.names().contains_key(cycle_role(program.steps@, i)))
                ==> r is Err,
            (forall|i: int| 0 <= i < steps ==> self.registry.total_roles().contains(#[trigger] cycle_role(program.steps@, i)))
                && float_free(initial_state@) ==> r is Ok,
            r matches Ok((state, _)) ==> (float_free(initial_state@) ==> float_free(state@)),
            forall|k: int|
                0 <= k < steps && run_from(
                    self.registry.names(),
                    |ro: OperatorRole, s: Json| self.registry.step(ro, s, *rd),
                    program.steps@,
                    initial_state@,
                    k as nat,
                ) is Some && !self.registry.names().contains_key(#[trigger] cycle_role(program.steps@, k))
                    ==> (r matches Err(CoreError::OperatorNotRegistered(m)) && m@ == role_name(
                    cycle_role(program.steps@, k),
                )),

            r is Ok <==> run_from(
                self.registry.names(),
                |ro: OperatorRole, s: Json| self.registry.step(ro, s, *rd),
                program.steps@,
                initial_state@,
                steps as nat,
            ) is Some,
            r matches Ok((state, trace)) ==> run_from(
                self.registry.names(),
                |ro: OperatorRole, s: Json| self.registry.step(ro, s, *rd),
                program.steps@,
                initial_state@,
                steps as nat,
            ) == Some((state@, records(trace@))),
    {
        let ghost stepf = |ro: OperatorRole, s: Json| self.registry.step(ro, s, *rd);
        let ghost names = self.registry.names();
        let ghost totals = self.registry.total_roles();
        let ghost all_total = forall|k: int| 0 <= k < steps ==> totals.contains(#[trigger] cycle_role(program.steps@, k));
        proof {
            self.registry.lemma_total_roles_registered();
        }
        let ghost p = program.steps@;
        let mut state = initial_state.deep_clone();
        let mut trace: Vec<TraceEntry> = Vec::new();
        let mut i: usize = 0;
        while i < steps
            invariant
                steps == 0 || p.len() > 0,
                names == self.registry.names(),
                totals == self.registry.total_roles(),
                all_total == forall|k: int| 0 <= k < steps ==> totals.contains(#[trigger] cycle_role(p, k)),
                forall|r: OperatorRole| #[trigger] totals.contains(r) ==> names.contains_key(r),
                p == program.steps@,
                i <= steps,
                trace@.len() == i,
                run_accepted(
                    names,
                    stepf,
                    |ro: OperatorRole, s: Json| self.registry.accepts(ro, s),
                    p,
                    initial_state@,
                    steps as nat,
                ),
                forall|k: int| 0 <= k < i ==> entry_ok(names, p, #[trigger] trace@[k], k),
                i > 0 ==> json_digest(initial_state@) == Some(trace@[0].in_digest@),
                forall|k: int| 0 <= k < i - 1 ==> #[trigger] trace@[k].out_digest@ == trace@[k + 1].in_digest@,
                i > 0 ==> json_digest(state@) == Some(trace@[i - 1].out_digest@),
                i == 0 ==> state@ == initial_state@,
                float_free(initial_state@) ==> float_free(state@),
                stepf == (|ro: OperatorRole, s: Json| self.registry.step(ro, s, *rd)),
                run_from(names, stepf, p, initial_state@, i as nat) == Some((state@, records(trace@))),
            decreases steps - i,
        {
            let role = &program.steps[i % program.steps.len()];
            let op = match self.registry.get(role) {
                Some(op) => op,
                None => {
                    proof {
                        if all_total {
                            assert(totals.contains(cycle_role(p, i as int)));
                        }
                        assert(run_from(names, stepf, p, initial_state@, (i + 1) as nat) is None);
                        lemma_run_from_fails_after(names, stepf, p, initial_state@, (i + 1) as nat, steps as nat);
                        lemma_failing_step_unique(names, stepf, p, initial_state@, i as nat, steps as nat);
                    }
                    return Err(CoreError::OperatorNotRegistered(string_of(role.as_str())));
                },
            };
            assert(*role == cycle_role(p, i as int));
            proof {
                if float_free(state@) {
                    lemma_float_free_digest(state@);
                }
            }
            let in_digest = match digest_sha256_jcs(&state, rd) {
                Ok(d) => d,
                Err(e) => {
                    proof {
                        lemma_run_from_fails_after(names, stepf, p, initial_state@, (i + 1) as nat, steps as nat);
                        lemma_failing_step_unique(names, stepf, p, initial_state@, i as nat, steps as nat);
                    }
                    return Err(e);
                },
            };
            proof {
                if all_total {
                    assert(totals.contains(cycle_role(p, i as int)));
                }
                let acc = |ro: OperatorRole, s: Json| self.registry.accepts(ro, s);
                assert(run_accepted(names, stepf, acc, p, initial_state@, steps as nat));
                assert(run_from(names, stepf, p, initial_state@, i as nat) == Some((state@, records(trace@))));
                assert(acc(cycle_role(p, i as int), state@));
                assert(self.registry.accepts(*role, state@));
                assert(op.spec_accepts(state@));
            }
            let (next, evidence) = match op.execute(&state, rd) {
                Ok(pair) => pair,
                Err(e) => {
                    proof {
                        assert(stepf(*role, state@) is None);
                        lemma_run_from_fails_after(names, stepf, p, initial_state@, (i + 1) as nat, steps as nat);
                        lemma_failing_step_unique(names, stepf, p, initial_state@, i as nat, steps as nat);
                    }
                    return Err(e);
                },
            };
            assert(stepf(*role, state@) == Some((next@, evidence@)));
            proof {
                if float_free(state@) {
                    lemma_float_free_digest(next@);
                    lemma_float_free_digest(evidence@);
                }
            }
            let out_digest = match digest_sha256_jcs(&next, rd) {
                Ok(d) => d,
                Err(e) => {
                    proof {
                        lemma_run_from_fails_after(names, stepf, p, initial_state@, (i + 1) as nat, steps as nat);
                        lemma_failing_step_unique(names, stepf, p, initial_state@, i as nat, steps as nat);
                    }
                    return Err(e);
                },
            };
            let ev_digest = match digest_sha256_jcs(&evidence, rd) {
                Ok(d) => d,
                Err(e) => {
                    proof {
                        lemma_run_from_fails_after(names, stepf, p, initial_state@, (i + 1) as nat, steps as nat);
                        lemma_failing_step_unique(names, stepf, p, initial_state@, i as nat, steps as nat);
                    }
                    return Err(e);
                },
            };
            let ghost old_trace = trace@;
            trace.push(
                TraceEntry {
                    step: i as u64,
                    role: string_of(role.as_str()),
                    operator_name: string_of(op.name()),
                    in_digest,
                    out_digest,
                    op_evidence_digest: ev_digest,
                },
            );
            proof {
                assert(forall|k: int| 0 <= k < i ==> trace@[k] == old_trace[k]);
                assert(entry_ok(names, p, trace@[i as int], i as int));
                assert(records(trace@) =~= records(old_trace).push(trace@[i as int]@));
            }
            state = next;
            i = i + 1;
        }
        assert forall|k: int| 0 <= k < steps implies names.contains_key(#[trigger] cycle_role(p, k)) by {
            assert(entry_ok(names, p, trace@[k], k));
        }
        assert forall|k: int|
            0 <= k < steps && run_from(names, stepf, p, initial_state@, k as nat) is Some && !names.contains_key(
                #[trigger] cycle_role(p, k),
            ) implies false by {
            lemma_unregistered_fails(names, stepf, p, initial_state@, k as nat, steps as nat);
        }
        Ok((state, trace))
    }
}

} // verus!
