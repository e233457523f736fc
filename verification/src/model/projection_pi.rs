//! The Pi projection: the sum of the bytes of a document's digest, with the
//! digest of the projection's parameters.
use vstd::prelude::*;

use crate::canon_jcs::lemma_float_free_members;
use crate::digest::{digest_sha256_jcs, json_digest, lemma_digest_ascii};
use crate::errors::CoreError;
use crate::evidence::lemma_float_free_digest;
use crate::json::{fields_push, json_str, view_fields, Json, JsonValue};
use crate::rd::RunDescriptor;
use crate::text::string_of;
use vstd::string::StrSliceExecFns;
use vstd::utf8::encode_utf8;

verus! {

/// A projection's identity, its parameters' digest, and the byte sum that
/// its value is read from (the value is the sum divided by 1000).
#[derive(Debug, Clone, PartialEq, Eq)]
pub struct PiProjectionSum {
    pub pi_id: String,
    pub pi_params_digest: String,
    pub byte_sum: u64,
}

/// The sum of the first `k` bytes.
pub open spec fn byte_sum(b: Seq<u8>, k: int) -> int
    decreases k,
{
    if k <= 0 {
        0
    } else {
        byte_sum(b, k - 1) + b[k - 1] as int
    }
}

/// The projection's parameters: `{"method": "stable-byte-sum"}`.
pub open spec fn pi_params_doc() -> Json {
    Json::Object(seq![("method"@, Json::Str("stable-byte-sum"@))])
}

proof fn lemma_byte_sum_bound(b: Seq<u8>, k: int)
    requires
        0 <= k,
    ensures
        0 <= byte_sum(b, k) <= 255 * k,
    decreases k,
{
    if k > 0 {
        lemma_byte_sum_bound(b, k - 1);
    }
}

/// Projects `uir`: the byte sum of its digest, identified as
/// `pi_projection_v1`, with the digest of the parameters. Fails where `uir`
/// has no digest.
pub fn project_pi_sum(uir: &JsonValue, rd: &RunDescriptor) -> (r: Result<PiProjectionSum, CoreError>)
    ensures
        r is Ok,
        match r {
            Ok(p) => {
                &&& json_digest(uir@) is Some
                &&& p.byte_sum == byte_sum(encode_utf8(json_digest(uir@).unwrap()), 71)
                &&& p.pi_id@ == "pi_projection_v1"@
                &&& json_digest(pi_params_doc()) == Some(p.pi_params_digest@)
            },
            Err(e) => json_digest(uir@) is None && e is NumberCanonicalizationFailed,
        },
{
    let d = digest_sha256_jcs(uir, rd)?;
    proof {
        lemma_digest_ascii(d@);
    }
    let bytes = d.as_str().as_bytes_vec();
    let mut sum: u64 = 0;
    let mut i: usize = 0;
    while i < bytes.len()
        invariant
            i <= bytes@.len(),
            bytes@.len() == 71,
            sum == byte_sum(bytes@, i as int),
        decreases bytes@.len() - i,
    {
        proof {
            lemma_byte_sum_bound(bytes@, i as int);
        }
        sum = sum + bytes[i] as u64;
        i = i + 1;
    }
    let mut f: Vec<(String, JsonValue)> = Vec::new();
    fields_push(&mut f, "method", json_str("stable-byte-sum"));
    assert(view_fields(f@) =~= pi_params_doc()->Object_0);
    let params = JsonValue::Object(f);
    proof {
        let fs = pi_params_doc()->Object_0;
        lemma_float_free_members(fs, fs.len());
        lemma_float_free_digest(params@);
    }
    let pi_params_digest = match digest_sha256_jcs(&params, rd) {
        Ok(pd) => pd,
        Err(e) => {
            return Err(e);
        },
    };
    Ok(PiProjectionSum { pi_id: string_of("pi_projection_v1"), pi_params_digest, byte_sum: sum })
}

} // verus!
