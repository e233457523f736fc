//! The replay manifest: the digests that a replay must reproduce.
use vstd::prelude::*;

use crate::digest::{digest_sha256_jcs, json_digest};
use crate::errors::CoreError;
use crate::evidence::{evidence_json, lemma_float_free_digest, Evidence};
use crate::rd::{rd_json, RunDescriptor};
use crate::text::string_of;

verus! {

/// The replay manifest of a run.
#[derive(Debug, Clone, PartialEq, Eq)]
pub struct ReplayManifest {
    pub hash_algorithm: String,
    pub rd_digest: String,
    pub input_digest: String,
    pub trace_digest: String,
    pub evidence_digest: String,
    pub head_digest: String,
}

/// Builds the manifest: hash algorithm `sha256`, the digests of the
/// descriptor and of the evidence, and the given input, trace and head
/// digests.
pub fn build_manifest(
    rd: &RunDescriptor,
    input_digest: &str,
    trace_digest: &str,
    evidence: &Evidence,
    head_digest: &str,
) -> (r: Result<ReplayManifest, CoreError>)
    ensures
        r matches Ok(m) && {
            &&& m.hash_algorithm@ == "sha256"@
            &&& json_digest(rd_json(*rd)) == Some(m.rd_digest@)
            &&& m.input_digest@ == input_digest@
            &&& m.trace_digest@ == trace_digest@
            &&& json_digest(evidence_json(*evidence)) == Some(m.evidence_digest@)
            &&& m.head_digest@ == head_digest@
        },
{
    let rdj = rd.to_json();
    proof {
        lemma_float_free_digest(rdj@);
    }
    let rd_digest = digest_sha256_jcs(&rdj, rd)?;
    let evj = evidence.to_json();
    proof {
        lemma_float_free_digest(evj@);
    }
    let evidence_digest = digest_sha256_jcs(&evj, rd)?;
    Ok(
        ReplayManifest {
            hash_algorithm: string_of("sha256"),
            rd_digest,
            input_digest: string_of(input_digest),
            trace_digest: string_of(trace_digest),
            evidence_digest,
            head_digest: string_of(head_digest),
        },
    )
}

} // verus!
