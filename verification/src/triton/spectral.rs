//! Spectral signatures, the Triton context and the evaluator interface.
use vstd::prelude::*;

use crate::json::{fields_get, fields_push, lemma_view_items, view_fields, view_items, Json, JsonNumber, JsonValue};
use crate::rd::RunDescriptor;

verus! {

/// A spectral signature: three Q16.16 fixed-point components.
#[derive(Debug, Clone, Copy, PartialEq, Eq, Structural)]
pub struct SpectralSignature {
    pub psi_q: i32,
    pub rho_q: i32,
    pub omega_q: i32,
}

/// The parameters of the Triton layer.
#[derive(Debug, Clone)]
pub struct TritonContext {
    pub rd: RunDescriptor,
    pub spiral_delta_q: i32,
    pub solve_threshold_q: i32,
    pub coagula_threshold_q: i32,
    pub tic_min_points: usize,
}

/// Every weighted coordinate `coords[i] * (i + 1)` fits in an `i32`.
pub open spec fn weights_fit(coords: Seq<i32>) -> bool {
    &&& i32::MIN <= coords[1] * 2 <= i32::MAX
    &&& i32::MIN <= coords[2] * 3 <= i32::MAX
    &&& i32::MIN <= coords[3] * 4 <= i32::MAX
    &&& i32::MIN <= coords[4] * 5 <= i32::MAX
}

/// Maps points of the space to spectral signatures. An evaluator states
/// the points it accepts and the signature it gives each of them.
pub trait SpectralEvaluator {
    /// Whether the evaluator can evaluate `coords` (under `ctx`).
    spec fn spec_accepts(&self, coords: Seq<i32>, ctx: TritonContext) -> bool;

    /// The signature the evaluator gives `coords` (under `ctx`).
    spec fn spec_evaluate(&self, coords: Seq<i32>, ctx: TritonContext) -> SpectralSignature;

    fn evaluate(&mut self, coords_q: [i32; 5], ctx: &TritonContext) -> (r: SpectralSignature)
        requires
            old(self).spec_accepts(coords_q@, *ctx),
        ensures
            r == old(self).spec_evaluate(coords_q@, *ctx),
    ;
}

/// `x` clamped to the range of `i32`.
pub open spec fn sat_i32(x: int) -> i32 {
    if x > i32::MAX {
        i32::MAX
    } else if x < i32::MIN {
        i32::MIN
    } else {
        x as i32
    }
}

/// Saturating addition on `i32` (`i32::saturating_add`).
pub fn sat_add_i32(a: i32, b: i32) -> (r: i32)
    ensures
        r == sat_i32(a + b),
{
    let s: i64 = a as i64 + b as i64;
    if s > i32::MAX as i64 {
        i32::MAX
    } else if s < i32::MIN as i64 {
        i32::MIN
    } else {
        s as i32
    }
}

/// The integer number document of an `i32`.
pub open spec fn int_json(x: i32) -> Json {
    Json::Number(JsonNumber::I64(x as i64))
}

/// The JSON form of a signature: `psi_q`, `rho_q`, `omega_q`.
pub open spec fn signature_json(s: SpectralSignature) -> Json {
    Json::Object(
        seq![("psi_q"@, int_json(s.psi_q)), ("rho_q"@, int_json(s.rho_q)), ("omega_q"@, int_json(s.omega_q))],
    )
}

/// The number document of an `i32`.
pub fn int_value(x: i32) -> (r: JsonValue)
    ensures
        r@ == int_json(x),
{
    JsonValue::Number(JsonNumber::I64(x as i64))
}

impl SpectralSignature {
    /// The JSON form of the signature.
    pub fn to_json(&self) -> (r: JsonValue)
        ensures
            r@ == signature_json(*self),
    {
        let mut f: Vec<(String, JsonValue)> = Vec::new();
        fields_push(&mut f, "psi_q", int_value(self.psi_q));
        fields_push(&mut f, "rho_q", int_value(self.rho_q));
        fields_push(&mut f, "omega_q", int_value(self.omega_q));
        assert(view_fields(f@) =~= signature_json(*self)->Object_0);
        JsonValue::Object(f)
    }
}

/// The `i32` that a number document denotes, if any (what `serde` reads
/// into an `i32`: an integer in range; not a fraction).
pub open spec fn json_i32(j: Json) -> Option<i32> {
    match j {
        Json::Number(JsonNumber::I64(i)) => if i32::MIN <= i <= i32::MAX {
            Some(i as i32)
        } else {
            None
        },
        Json::Number(JsonNumber::U64(u)) => if u <= i32::MAX {
            Some(u as i32)
        } else {
            None
        },
        _ => None,
    }
}

/// The three fields of a struct read from a document: the members `k0`,
/// `k1`, `k2` of an object (others ignored), or the items of an array of
/// exactly three.
pub open spec fn member3(j: Json, k0: Seq<char>, k1: Seq<char>, k2: Seq<char>) -> Option<(Json, Json, Json)> {
    match j {
        Json::Object(fs) => match (fields_get(fs, k0), fields_get(fs, k1), fields_get(fs, k2)) {
            (Some(a), Some(b), Some(c)) => Some((a, b, c)),
            _ => None,
        },
        Json::Array(items) => if items.len() == 3 {
            Some((items[0], items[1], items[2]))
        } else {
            None
        },
        _ => None,
    }
}

/// The signature that a document denotes, if any.
pub open spec fn decode_signature(j: Json) -> Option<SpectralSignature> {
    match member3(j, "psi_q"@, "rho_q"@, "omega_q"@) {
        Some((a, b, c)) => match (json_i32(a), json_i32(b), json_i32(c)) {
            (Some(x), Some(y), Some(z)) => Some(SpectralSignature { psi_q: x, rho_q: y, omega_q: z }),
            _ => None,
        },
        None => None,
    }
}

/// The `i32` that a document denotes, if any.
pub fn i32_of(v: &JsonValue) -> (r: Option<i32>)
    ensures
        r == json_i32(v@),
{
    match v {
        JsonValue::Number(JsonNumber::I64(i)) => if i32::MIN as i64 <= *i && *i <= i32::MAX as i64 {
            Some(*i as i32)
        } else {
            None
        },
        JsonValue::Number(JsonNumber::U64(u)) => if *u <= i32::MAX as u64 {
            Some(*u as i32)
        } else {
            None
        },
        _ => None,
    }
}

/// The three fields of a struct read from `v` (see `member3`).
pub fn members3<'a>(v: &'a JsonValue, k0: &str, k1: &str, k2: &str) -> (r: Option<
    (&'a JsonValue, &'a JsonValue, &'a JsonValue),
>)
    ensures
        match r {
            Some((a, b, c)) => member3(v@, k0@, k1@, k2@) == Some((a@, b@, c@)),
            None => member3(v@, k0@, k1@, k2@) is None,
        },
{
    match v {
        JsonValue::Object(_) => {
            let a = v.get(k0);
            let b = v.get(k1);
            let c = v.get(k2);
            match (a, b, c) {
                (Some(x), Some(y), Some(z)) => Some((x, y, z)),
                _ => None,
            }
        },
        JsonValue::Array(items) => {
            proof {
                lemma_view_items(items@);
            }
            if items.len() == 3 {
                Some((&items[0], &items[1], &items[2]))
            } else {
                None
            }
        },
        _ => None,
    }
}

impl SpectralSignature {
    /// The signature that `v` denotes, if any.
    pub fn from_json(v: &JsonValue) -> (r: Option<SpectralSignature>)
        ensures
            r == decode_signature(v@),
    {
        match members3(v, "psi_q", "rho_q", "omega_q") {
            Some((a, b, c)) => match (i32_of(a), i32_of(b), i32_of(c)) {
                (Some(x), Some(y), Some(z)) => Some(SpectralSignature { psi_q: x, rho_q: y, omega_q: z }),
                _ => None,
            },
            None => None,
        }
    }
}

} // verus!
