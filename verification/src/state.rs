//! The initial state of a run, built from a UIR graph.
use vstd::prelude::*;

use crate::digest::{digest_sha256_jcs, json_digest};
use crate::errors::CoreError;
use crate::rd::RunDescriptor;
use crate::text::string_of;
use crate::types::{Digest, Sigma};
use crate::uir::{graph_json, uir_violation, UirGraph};

verus! {

/// Builds the initial state from a graph: the graph must satisfy its
/// invariants; the payload is the graph's JSON form and the digest that of
/// the payload. No JSON-schema check is made here.
pub fn init_sigma_from_uir(sigma_id: &str, graph: &UirGraph, rd: &RunDescriptor) -> (r: Result<Sigma, CoreError>)
    ensures
        r is Ok <==> uir_violation(graph@) is None,
        match r {
            Ok(s) => {
                &&& uir_violation(graph@) is None
                &&& s.sigma_id@ == sigma_id@
                &&& s.payload@ == graph_json(graph@)
                &&& json_digest(graph_json(graph@)) == Some(s.digest.0@)
            },
            Err(e) => match uir_violation(graph@) {
                Some(m) => e is InvariantViolation && e->InvariantViolation_0@ == m,
                None => json_digest(graph_json(graph@)) is None && e is NumberCanonicalizationFailed,
            },
        },
{
    graph.validate_invariants()?;
    let payload = graph.to_json();
    let digest = Digest(digest_sha256_jcs(&payload, rd)?);
    Ok(Sigma { sigma_id: string_of(sigma_id), payload, digest })
}

} // verus!
