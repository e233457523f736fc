//! The JSON frontend: a decoded UIR graph, put in canonical order and
//! checked.
use vstd::prelude::*;

use crate::errors::CoreError;
use crate::model::FrontendError;
use crate::uir::{canonical_graph, uir_violation, UirGraph};

verus! {

/// Puts a decoded graph in canonical order and checks its invariants; a
/// violation is reported as a kernel error.
pub fn load_uir_graph(graph: UirGraph) -> (r: Result<UirGraph, FrontendError>)
    ensures
        match r {
            Ok(g) => g@ == canonical_graph(graph@) && uir_violation(g@) is None,
            Err(e) => e matches FrontendError::Core(c) && c is InvariantViolation && uir_violation(
                canonical_graph(graph@),
            ) == Some(c->InvariantViolation_0@),
        },
{
    let mut graph = graph;
    graph.canonicalize_order();
    match graph.validate_invariants() {
        Ok(()) => Ok(graph),
        Err(e) => Err(FrontendError::Core(e)),
    }
}

} // verus!
