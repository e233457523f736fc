//! The run descriptor: the declared parameters of a run.
use vstd::prelude::*;

use crate::canon_jcs::{float_free, lemma_float_free_list, lemma_float_free_members};
use crate::json::{fields_push, items_push, json_str, view_fields, view_items, Json, JsonValue};

verus! {

/// Which seed material a run may use. `Unseeded` is the policy that the
/// serialized form calls `"none"`.
#[derive(Debug, Clone, PartialEq, Eq)]
pub enum SeedPolicy {
    Unseeded,
    Fixed { seed_id: String, bytes_hex: String },
}

/// How non-integral numbers are normalized before canonical encoding.
#[derive(Debug, Clone, Copy, PartialEq, Eq, Structural)]
pub enum FloatPolicy {
    Q16_16RoundHalfEven,
}

/// Canonicalization settings of a run.
#[derive(Debug, Clone, PartialEq, Eq)]
pub struct CanonSettings {
    pub float_policy: FloatPolicy,
}

impl Default for CanonSettings {
    fn default() -> (r: Self)
        ensures
            r.float_policy == FloatPolicy::Q16_16RoundHalfEven,
    {
        CanonSettings { float_policy: FloatPolicy::Q16_16RoundHalfEven }
    }
}

/// The run descriptor.
#[derive(Debug, Clone, PartialEq, Eq)]
pub struct RunDescriptor {
    pub spec_version: String,
    pub engine_version: String,
    pub model_pack_version: String,
    pub seed_policy: SeedPolicy,
    pub io_policy: Vec<String>,
    pub normalization_profile: String,
    pub canon: CanonSettings,
}

pub open spec fn seed_policy_json(p: SeedPolicy) -> Json {
    match p {
        SeedPolicy::Unseeded => Json::Str("none"@),
        SeedPolicy::Fixed { seed_id, bytes_hex } => Json::Object(
            seq![
                ("fixed"@, Json::Object(
                    seq![("seed_id"@, Json::Str(seed_id@)), ("bytes_hex"@, Json::Str(bytes_hex@))],
                )),
            ],
        ),
    }
}

pub open spec fn strings_json(s: Seq<String>) -> Json {
    Json::Array(s.map_values(|x: String| Json::Str(x@)))
}

/// The JSON form of a run descriptor: one member per field; the seed policy
/// as `"none"` or `{"fixed": {"seed_id", "bytes_hex"}}`, the float policy as
/// `"q16_16_round_half_even"`.
pub open spec fn rd_json(rd: RunDescriptor) -> Json {
    Json::Object(
        seq![
            ("spec_version"@, Json::Str(rd.spec_version@)),
            ("engine_version"@, Json::Str(rd.engine_version@)),
            ("model_pack_version"@, Json::Str(rd.model_pack_version@)),
            ("seed_policy"@, seed_policy_json(rd.seed_policy)),
            ("io_policy"@, strings_json(rd.io_policy@)),
            ("normalization_profile"@, Json::Str(rd.normalization_profile@)),
            ("canon"@, Json::Object(
                seq![("float_policy"@, Json::Str("q16_16_round_half_even"@))],
            )),
        ],
    )
}

/// The JSON form of a list of strings.
pub fn strings_to_json(s: &Vec<String>) -> (r: JsonValue)
    ensures
        r@ == strings_json(s@),
{
    let mut items: Vec<JsonValue> = Vec::new();
    for i in 0..s.len()
        invariant
            view_items(items@) == s@.take(i as int).map_values(|x: String| Json::Str(x@)),
    {
        items_push(&mut items, json_str(s[i].as_str()));
        assert(s@.take(i + 1).map_values(|x: String| Json::Str(x@)) =~= s@.take(i as int).map_values(
            |x: String| Json::Str(x@),
        ).push(Json::Str(s@[i as int]@)));
    }
    assert(s@.take(s@.len() as int) == s@);
    JsonValue::Array(items)
}

impl RunDescriptor {
    /// A copy of the run descriptor.
    pub fn copy(&self) -> (r: RunDescriptor)
        ensures
            rd_json(r) == rd_json(*self),
            r.canon.float_policy == self.canon.float_policy,
    {
        let seed_policy = match &self.seed_policy {
            SeedPolicy::Unseeded => SeedPolicy::Unseeded,
            SeedPolicy::Fixed { seed_id, bytes_hex } => SeedPolicy::Fixed {
                seed_id: seed_id.clone(),
                bytes_hex: bytes_hex.clone(),
            },
        };
        let mut io_policy: Vec<String> = Vec::new();
        for i in 0..self.io_policy.len()
            invariant
                io_policy@.len() == i,
                forall|j: int| 0 <= j < i ==> #[trigger] io_policy@[j]@ == self.io_policy@[j]@,
        {
            io_policy.push(self.io_policy[i].clone());
        }
        let r = RunDescriptor {
            spec_version: self.spec_version.clone(),
            engine_version: self.engine_version.clone(),
            model_pack_version: self.model_pack_version.clone(),
            seed_policy,
            io_policy,
            normalization_profile: self.normalization_profile.clone(),
            canon: CanonSettings { float_policy: FloatPolicy::Q16_16RoundHalfEven },
        };
        assert(r.io_policy@.map_values(|x: String| Json::Str(x@)) =~= self.io_policy@.map_values(
            |x: String| Json::Str(x@),
        ));
        assert(seed_policy_json(r.seed_policy) == seed_policy_json(self.seed_policy));
        r
    }

    /// The JSON form of the run descriptor.
    pub fn to_json(&self) -> (r: JsonValue)
        ensures
            r@ == rd_json(*self),
            float_free(r@),
    {
        let seed = match &self.seed_policy {
            SeedPolicy::Unseeded => json_str("none"),
            SeedPolicy::Fixed { seed_id, bytes_hex } => {
                let mut inner: Vec<(String, JsonValue)> = Vec::new();
                fields_push(&mut inner, "seed_id", json_str(seed_id.as_str()));
                fields_push(&mut inner, "bytes_hex", json_str(bytes_hex.as_str()));
                let mut outer: Vec<(String, JsonValue)> = Vec::new();
                fields_push(&mut outer, "fixed", JsonValue::Object(inner));
                assert(view_fields(inner@) =~= seq![("seed_id"@, Json::Str(seed_id@)), ("bytes_hex"@, Json::Str(bytes_hex@))]);
                assert(view_fields(outer@) =~= seed_policy_json(self.seed_policy)->Object_0);
                JsonValue::Object(outer)
            },
        };
        let mut canon: Vec<(String, JsonValue)> = Vec::new();
        fields_push(&mut canon, "float_policy", json_str("q16_16_round_half_even"));
        let mut f: Vec<(String, JsonValue)> = Vec::new();
        fields_push(&mut f, "spec_version", json_str(self.spec_version.as_str()));
        fields_push(&mut f, "engine_version", json_str(self.engine_version.as_str()));
        fields_push(&mut f, "model_pack_version", json_str(self.model_pack_version.as_str()));
        fields_push(&mut f, "seed_policy", seed);
        fields_push(&mut f, "io_policy", strings_to_json(&self.io_policy));
        fields_push(&mut f, "normalization_profile", json_str(self.normalization_profile.as_str()));
        fields_push(&mut f, "canon", JsonValue::Object(canon));
        assert(view_fields(canon@) =~= seq![("float_policy"@, Json::Str("q16_16_round_half_even"@))]);
        assert(view_fields(f@) =~= rd_json(*self)->Object_0);
        let r = JsonValue::Object(f);
        proof {
            let fs = rd_json(*self)->Object_0;
            let io = self.io_policy@.map_values(|x: String| Json::Str(x@));
            lemma_float_free_list(io, io.len());
            let sp = seed_policy_json(self.seed_policy);
            if sp is Object {
                let inner = sp->Object_0[0].1->Object_0;
                lemma_float_free_members(inner, inner.len());
                lemma_float_free_members(sp->Object_0, sp->Object_0.len());
            }
            let cf = fs[6].1->Object_0;
            lemma_float_free_members(cf, cf.len());
            lemma_float_free_members(fs, fs.len());
        }
        r
    }
}

} // verus!
