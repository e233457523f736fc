//! Core value types: digests, states, trace steps, manifests and scored
//! values.
use vstd::prelude::*;

use crate::json::JsonValue;

verus! {

/// A digest text (`sha256:` and 64 hex digits).
#[derive(Debug, Clone, PartialEq, Eq, Hash)]
pub struct Digest(pub String);

/// A state snapshot: its identifier, payload and payload digest.
#[derive(Debug, PartialEq)]
pub struct Sigma {
    pub sigma_id: String,
    pub payload: JsonValue,
    pub digest: Digest,
}

/// One step of a replay trace.
#[derive(Debug, Clone, PartialEq, Eq)]
pub struct TraceStep {
    pub index: u64,
    pub op_code: String,
    pub op_params_canonical: String,
    pub sigma_before_digest: Digest,
    pub sigma_after_digest: Digest,
    pub evidence_ref: String,
}

pub type Trace = Vec<TraceStep>;

/// A manifest binding a run's artifacts by digest.
#[derive(Debug, Clone, PartialEq, Eq)]
pub struct Manifest {
    pub hash_algorithm: String,
    pub rd_hash: Digest,
    pub initial_sigma_hash: Digest,
    pub trace_hash: Digest,
    pub evidence_hashes: Vec<Digest>,
}

/// A payload with a score. The score is a Q16.16 fixed-point number
/// (`score / 65536`).
#[derive(Debug, PartialEq)]
pub struct ScoredValue {
    pub score: i64,
    pub payload: JsonValue,
}

} // verus!
