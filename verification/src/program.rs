//! Programs: the cyclic sequence of roles an engine runs.
use vstd::prelude::*;

use crate::operators::OperatorRole;

verus! {

/// A program: the roles of one cycle.
#[derive(Debug, Clone)]
pub struct Program {
    pub steps: Vec<OperatorRole>,
}

pub open spec fn default_cycle() -> Seq<OperatorRole> {
    seq![
        OperatorRole::Ingest,
        OperatorRole::Canon,
        OperatorRole::Measure,
        OperatorRole::Solve,
        OperatorRole::Morph,
        OperatorRole::Gate,
        OperatorRole::Select,
        OperatorRole::Merge,
        OperatorRole::Emit,
    ]
}

impl Program {
    /// The standard cycle: ingest, canon, measure, solve, morph, gate,
    /// select, merge, emit.
    pub fn psp_core_default_cycle() -> (p: Self)
        ensures
            p.steps@ == default_cycle(),
    {
        let mut steps: Vec<OperatorRole> = Vec::new();
        steps.push(OperatorRole::Ingest);
        steps.push(OperatorRole::Canon);
        steps.push(OperatorRole::Measure);
        steps.push(OperatorRole::Solve);
        steps.push(OperatorRole::Morph);
        steps.push(OperatorRole::Gate);
        steps.push(OperatorRole::Select);
        steps.push(OperatorRole::Merge);
        steps.push(OperatorRole::Emit);
        assert(steps@ =~= default_cycle());
        Program { steps }
    }
}

} // verus!
