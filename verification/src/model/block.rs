//! Blocks: a header and a payload sealed by the digest of both.
use vstd::prelude::*;

use crate::digest::{digest_sha256_jcs, json_digest};
use crate::errors::CoreError;
use crate::json::{fields_push, json_str, view_fields, Json, JsonNumber, JsonValue};
use crate::rd::{strings_json, strings_to_json, RunDescriptor};

verus! {

/// A block header: the two clocks, the tag, the chain link and the digests
/// of the descriptor and of the projection parameters.
#[derive(Debug, PartialEq, Eq)]
pub struct BlockHeader {
    pub k1: u64,
    pub k2: u64,
    pub nc_tag: String,
    pub prev_digest: String,
    pub rd_digest: String,
    pub pi_id: String,
    pub pi_params_digest: String,
}

/// A block payload: digests, metrics, the consensus report and artifact
/// digests.
#[derive(Debug, PartialEq)]
pub struct BlockPayload {
    pub uir_digest: String,
    pub astar_digest: String,
    pub metrics: JsonValue,
    pub consensus_report: JsonValue,
    pub artifact_digests: Vec<String>,
}

/// A sealed block.
#[derive(Debug, PartialEq)]
pub struct Block {
    pub header: BlockHeader,
    pub payload: BlockPayload,
    pub block_digest: String,
}

/// The JSON form of a header: one member per field.
pub open spec fn header_json(h: BlockHeader) -> Json {
    Json::Object(
        seq![
            ("k1"@, Json::Number(JsonNumber::U64(h.k1))),
            ("k2"@, Json::Number(JsonNumber::U64(h.k2))),
            ("nc_tag"@, Json::Str(h.nc_tag@)),
            ("prev_digest"@, Json::Str(h.prev_digest@)),
            ("rd_digest"@, Json::Str(h.rd_digest@)),
            ("pi_id"@, Json::Str(h.pi_id@)),
            ("pi_params_digest"@, Json::Str(h.pi_params_digest@)),
        ],
    )
}

/// The JSON form of a payload: one member per field.
pub open spec fn payload_json(p: BlockPayload) -> Json {
    Json::Object(
        seq![
            ("uir_digest"@, Json::Str(p.uir_digest@)),
            ("astar_digest"@, Json::Str(p.astar_digest@)),
            ("metrics"@, p.metrics@),
            ("consensus_report"@, p.consensus_report@),
            ("artifact_digests"@, strings_json(p.artifact_digests@)),
        ],
    )
}

/// The document that a block's digest seals: `{"header", "payload"}`.
pub open spec fn block_doc(h: BlockHeader, p: BlockPayload) -> Json {
    Json::Object(seq![("header"@, header_json(h)), ("payload"@, payload_json(p))])
}

impl BlockHeader {
    /// The JSON form of the header.
    pub fn to_json(&self) -> (r: JsonValue)
        ensures
            r@ == header_json(*self),
    {
        let mut f: Vec<(String, JsonValue)> = Vec::new();
        fields_push(&mut f, "k1", JsonValue::Number(JsonNumber::U64(self.k1)));
        fields_push(&mut f, "k2", JsonValue::Number(JsonNumber::U64(self.k2)));
        fields_push(&mut f, "nc_tag", json_str(self.nc_tag.as_str()));
        fields_push(&mut f, "prev_digest", json_str(self.prev_digest.as_str()));
        fields_push(&mut f, "rd_digest", json_str(self.rd_digest.as_str()));
        fields_push(&mut f, "pi_id", json_str(self.pi_id.as_str()));
        fields_push(&mut f, "pi_params_digest", json_str(self.pi_params_digest.as_str()));
        assert(view_fields(f@) =~= header_json(*self)->Object_0);
        JsonValue::Object(f)
    }
}

impl BlockPayload {
    /// The JSON form of the payload.
    pub fn to_json(&self) -> (r: JsonValue)
        ensures
            r@ == payload_json(*self),
    {
        let mut f: Vec<(String, JsonValue)> = Vec::new();
        fields_push(&mut f, "uir_digest", json_str(self.uir_digest.as_str()));
        fields_push(&mut f, "astar_digest", json_str(self.astar_digest.as_str()));
        fields_push(&mut f, "metrics", self.metrics.deep_clone());
        fields_push(&mut f, "consensus_report", self.consensus_report.deep_clone());
        fields_push(&mut f, "artifact_digests", strings_to_json(&self.artifact_digests));
        assert(view_fields(f@) =~= payload_json(*self)->Object_0);
        JsonValue::Object(f)
    }
}

/// Seals `header` and `payload` with the digest of `block_doc`. Fails where
/// that document has no canonical text.
pub fn make_block(header: BlockHeader, payload: BlockPayload, rd: &RunDescriptor) -> (r: Result<Block, CoreError>)
    ensures
        r is Ok,
        match r {
            Ok(b) => b.header == header && b.payload == payload && json_digest(block_doc(header, payload)) == Some(
                b.block_digest@,
            ),
            Err(e) => json_digest(block_doc(header, payload)) is None && e is NumberCanonicalizationFailed,
        },
{
    let mut f: Vec<(String, JsonValue)> = Vec::new();
    fields_push(&mut f, "header", header.to_json());
    fields_push(&mut f, "payload", payload.to_json());
    assert(view_fields(f@) =~= block_doc(header, payload)->Object_0);
    let canonical = JsonValue::Object(f);
    let block_digest = digest_sha256_jcs(&canonical, rd)?;
    Ok(Block { header, payload, block_digest })
}

} // verus!
