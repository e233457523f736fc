//! The Solve/Coagula gate: a signature passes Solve when the saturating sum
//! of its components' magnitudes is within the solve threshold, and
//! Coagula when its omega magnitude is within the coagula threshold.
use vstd::prelude::*;

use crate::canon_jcs::{float_free, lemma_float_free_members};
use crate::digest::{digest_sha256_jcs, json_digest};
use crate::errors::CoreError;
use crate::json::{fields_push, json_str, view_fields, Json, JsonNumber, JsonValue};
use crate::text::string_of;
use crate::triton::spectral::{int_json, int_value, SpectralSignature, TritonContext};

verus! {

/// A Solve/Coagula verdict and the evidence it rests on.
#[derive(Debug, Clone, PartialEq, Eq)]
pub struct TritonGateEvidence {
    pub predicate_id: String,
    pub predicate_ver: String,
    pub solve_threshold_q: i32,
    pub coagula_threshold_q: i32,
    pub measured_psi_q: i32,
    pub measured_rho_q: i32,
    pub measured_omega_q: i32,
    pub solve_pass: bool,
    pub coagula_pass: bool,
    pub outcome: bool,
    pub evidence_digest: String,
}

/// `|x|` as an unsigned number (`i32::unsigned_abs`).
pub open spec fn abs_u32(x: i32) -> u32 {
    if x < 0 {
        (-(x as int)) as u32
    } else {
        x as u32
    }
}

/// `x` clamped to the range of `u32` from above.
pub open spec fn sat_u32(x: int) -> u32 {
    if x > u32::MAX {
        u32::MAX
    } else {
        x as u32
    }
}

/// The saturating sum of the components' magnitudes.
pub open spec fn gate_magnitude(s: SpectralSignature) -> u32 {
    sat_u32(sat_u32(abs_u32(s.psi_q) + abs_u32(s.rho_q)) + abs_u32(s.omega_q))
}

/// A threshold, negative ones read as zero.
pub open spec fn threshold(t: i32) -> u32 {
    if t < 0 {
        0
    } else {
        t as u32
    }
}

pub open spec fn solve_passes(s: SpectralSignature, solve_threshold_q: i32) -> bool {
    gate_magnitude(s) <= threshold(solve_threshold_q)
}

pub open spec fn coagula_passes(s: SpectralSignature, coagula_threshold_q: i32) -> bool {
    abs_u32(s.omega_q) <= threshold(coagula_threshold_q)
}

/// The number document of a Q16.16 value.
pub open spec fn q16_json(x: i32) -> Json {
    Json::Number(JsonNumber::Q16(x as i64))
}

/// The document whose digest seals Solve/Coagula evidence: predicate, version,
/// thresholds, the measured components as numbers, and the outcome.
pub open spec fn gate_doc(s: SpectralSignature, solve_threshold_q: i32, coagula_threshold_q: i32, outcome: bool) -> Json {
    Json::Object(
        seq![
            ("predicate_id"@, Json::Str("triton.solve_coagula"@)),
            ("predicate_ver"@, Json::Str("1"@)),
            ("solve_threshold_q"@, int_json(solve_threshold_q)),
            ("coagula_threshold_q"@, int_json(coagula_threshold_q)),
            ("measured"@, Json::Object(
                seq![("psi"@, q16_json(s.psi_q)), ("rho"@, q16_json(s.rho_q)), ("omega"@, q16_json(s.omega_q))],
            )),
            ("outcome"@, Json::Bool(outcome)),
        ],
    )
}

/// `g` is the Solve/Coagula evidence for `s` under the two thresholds, its digest
/// left aside.
pub open spec fn gate_fields(g: TritonGateEvidence, s: SpectralSignature, solve_threshold_q: i32, coagula_threshold_q: i32) -> bool {
    &&& g.predicate_id@ == "triton.solve_coagula"@
    &&& g.predicate_ver@ == "1"@
    &&& g.solve_threshold_q == solve_threshold_q
    &&& g.coagula_threshold_q == coagula_threshold_q
    &&& g.measured_psi_q == s.psi_q
    &&& g.measured_rho_q == s.rho_q
    &&& g.measured_omega_q == s.omega_q
    &&& g.solve_pass == solve_passes(s, solve_threshold_q)
    &&& g.coagula_pass == coagula_passes(s, coagula_threshold_q)
    &&& g.outcome == (g.solve_pass && g.coagula_pass)
}

/// What Solve/Coagula decides, in terms of the signature and the thresholds:
/// Solve passes exactly when `|psi| + |rho| + |omega|` (capped at
/// `u32::MAX`) is at most the solve threshold (a negative threshold counts
/// as zero); Coagula exactly when `|omega|` is at most the coagula
/// threshold; the outcome is both.
pub proof fn lemma_gate_verdict(g: TritonGateEvidence, s: SpectralSignature, solve_threshold_q: i32, coagula_threshold_q: i32)
    requires
        gate_fields(g, s, solve_threshold_q, coagula_threshold_q),
    ensures
        g.solve_pass <==> ({
            let sum = (if s.psi_q < 0 { -s.psi_q } else { s.psi_q as int }) + (if s.rho_q < 0 {
                -s.rho_q
            } else {
                s.rho_q as int
            }) + (if s.omega_q < 0 { -s.omega_q } else { s.omega_q as int });
            (if sum > 0xFFFF_FFFF { 0xFFFF_FFFF } else { sum }) <= (if solve_threshold_q < 0 {
                0
            } else {
                solve_threshold_q as int
            })
        }),
        g.coagula_pass <==> (if s.omega_q < 0 { -s.omega_q } else { s.omega_q as int }) <= (if coagula_threshold_q
            < 0 {
            0
        } else {
            coagula_threshold_q as int
        }),
        g.outcome <==> g.solve_pass && g.coagula_pass,
{
}

/// `|x|` as an unsigned number.
fn unsigned_abs(x: i32) -> (r: u32)
    ensures
        r == abs_u32(x),
{
    if x < 0 {
        (0i64 - (x as i64)) as u32
    } else {
        x as u32
    }
}

fn threshold_of(t: i32) -> (r: u32)
    ensures
        r == threshold(t),
{
    if t < 0 {
        0
    } else {
        t as u32
    }
}

fn q16_value(x: i32) -> (r: JsonValue)
    ensures
        r@ == q16_json(x),
{
    JsonValue::Number(JsonNumber::Q16(x as i64))
}

/// Evaluates Solve/Coagula on `sigma`; the evidence digest is that of
/// `gate_doc`. Fails where that document has no canonical text.
pub fn evaluate_solve_coagula(sigma: &SpectralSignature, ctx: &TritonContext) -> (r: Result<TritonGateEvidence, CoreError>)
    ensures
        r is Ok,
        match r {
            Ok(g) => {
                &&& gate_fields(g, *sigma, ctx.solve_threshold_q, ctx.coagula_threshold_q)
                &&& json_digest(gate_doc(*sigma, ctx.solve_threshold_q, ctx.coagula_threshold_q, g.outcome)) == Some(
                    g.evidence_digest@,
                )
            },
            Err(e) => {
                &&& json_digest(
                    gate_doc(
                        *sigma,
                        ctx.solve_threshold_q,
                        ctx.coagula_threshold_q,
                        solve_passes(*sigma, ctx.solve_threshold_q) && coagula_passes(*sigma, ctx.coagula_threshold_q),
                    ),
                ) is None
                &&& e is NumberCanonicalizationFailed
            },
        },
{
    let magnitude_q = unsigned_abs(sigma.psi_q).saturating_add(unsigned_abs(sigma.rho_q)).saturating_add(
        unsigned_abs(sigma.omega_q),
    );
    let solve_pass = magnitude_q <= threshold_of(ctx.solve_threshold_q);
    let omega_abs = unsigned_abs(sigma.omega_q);
    let coagula_pass = omega_abs <= threshold_of(ctx.coagula_threshold_q);
    let outcome = solve_pass && coagula_pass;
    let mut measured: Vec<(String, JsonValue)> = Vec::new();
    fields_push(&mut measured, "psi", q16_value(sigma.psi_q));
    fields_push(&mut measured, "rho", q16_value(sigma.rho_q));
    fields_push(&mut measured, "omega", q16_value(sigma.omega_q));
    assert(view_fields(measured@) =~= seq![
        ("psi"@, q16_json(sigma.psi_q)),
        ("rho"@, q16_json(sigma.rho_q)),
        ("omega"@, q16_json(sigma.omega_q)),
    ]);
    let mut f: Vec<(String, JsonValue)> = Vec::new();
    fields_push(&mut f, "predicate_id", json_str("triton.solve_coagula"));
    fields_push(&mut f, "predicate_ver", json_str("1"));
    fields_push(&mut f, "solve_threshold_q", int_value(ctx.solve_threshold_q));
    fields_push(&mut f, "coagula_threshold_q", int_value(ctx.coagula_threshold_q));
    fields_push(&mut f, "measured", JsonValue::Object(measured));
    fields_push(&mut f, "outcome", JsonValue::Bool(outcome));
    assert(view_fields(f@) =~= gate_doc(*sigma, ctx.solve_threshold_q, ctx.coagula_threshold_q, outcome)->Object_0);
    let val = JsonValue::Object(f);
    let evidence_digest = digest_sha256_jcs(&val, &ctx.rd)?;
    Ok(
        TritonGateEvidence {
            predicate_id: string_of("triton.solve_coagula"),
            predicate_ver: string_of("1"),
            solve_threshold_q: ctx.solve_threshold_q,
            coagula_threshold_q: ctx.coagula_threshold_q,
            measured_psi_q: sigma.psi_q,
            measured_rho_q: sigma.rho_q,
            measured_omega_q: sigma.omega_q,
            solve_pass,
            coagula_pass,
            outcome,
            evidence_digest,
        },
    )
}

/// The JSON form of gate evidence: one member per field, in field order.
pub open spec fn gate_evidence_json(g: TritonGateEvidence) -> Json {
    Json::Object(
        seq![
            ("predicate_id"@, Json::Str(g.predicate_id@)),
            ("predicate_ver"@, Json::Str(g.predicate_ver@)),
            ("solve_threshold_q"@, int_json(g.solve_threshold_q)),
            ("coagula_threshold_q"@, int_json(g.coagula_threshold_q)),
            ("measured_psi_q"@, int_json(g.measured_psi_q)),
            ("measured_rho_q"@, int_json(g.measured_rho_q)),
            ("measured_omega_q"@, int_json(g.measured_omega_q)),
            ("solve_pass"@, Json::Bool(g.solve_pass)),
            ("coagula_pass"@, Json::Bool(g.coagula_pass)),
            ("outcome"@, Json::Bool(g.outcome)),
            ("evidence_digest"@, Json::Str(g.evidence_digest@)),
        ],
    )
}

impl TritonGateEvidence {
    /// The JSON form of the evidence.
    pub fn to_json(&self) -> (r: JsonValue)
        ensures
            r@ == gate_evidence_json(*self),
            float_free(r@),
    {
        let mut f: Vec<(String, JsonValue)> = Vec::new();
        fields_push(&mut f, "predicate_id", json_str(self.predicate_id.as_str()));
        fields_push(&mut f, "predicate_ver", json_str(self.predicate_ver.as_str()));
        fields_push(&mut f, "solve_threshold_q", int_value(self.solve_threshold_q));
        fields_push(&mut f, "coagula_threshold_q", int_value(self.coagula_threshold_q));
        fields_push(&mut f, "measured_psi_q", int_value(self.measured_psi_q));
        fields_push(&mut f, "measured_rho_q", int_value(self.measured_rho_q));
        fields_push(&mut f, "measured_omega_q", int_value(self.measured_omega_q));
        fields_push(&mut f, "solve_pass", JsonValue::Bool(self.solve_pass));
        fields_push(&mut f, "coagula_pass", JsonValue::Bool(self.coagula_pass));
        fields_push(&mut f, "outcome", JsonValue::Bool(self.outcome));
        fields_push(&mut f, "evidence_digest", json_str(self.evidence_digest.as_str()));
        assert(view_fields(f@) =~= gate_evidence_json(*self)->Object_0);
        proof {
            let fs = gate_evidence_json(*self)->Object_0;
            lemma_float_free_members(fs, fs.len());
        }
        JsonValue::Object(f)
    }
}

} // verus!
