//! The spiral walk: each turn bends the momentum by a twist that cycles
//! through -1, 0, 1 along the axes, moves the point by the momentum, and
//! names the new point by the digest of its coordinates, signature and step.
use vstd::prelude::*;

use crate::canon_jcs::{float_free, lemma_float_free_list, lemma_float_free_members};
use crate::digest::{digest_sha256_jcs, json_digest};
use crate::errors::CoreError;
use crate::evidence::lemma_float_free_digest;
use crate::json::{
    fields_push, items_push, json_as_u64, lemma_view_items, view_fields, view_items, Json, JsonNumber, JsonValue,
};
use crate::rd::RunDescriptor;
use crate::triton::spectral::{
    decode_signature, i32_of, int_json, int_value, json_i32, member3, members3, sat_add_i32, sat_i32,
    signature_json, weights_fit, SpectralEvaluator, SpectralSignature, TritonContext,
};

verus! {

/// A point reached by the spiral: coordinates, signature and identifying
/// digest.
#[derive(Debug, Clone, PartialEq, Eq)]
pub struct ExplorationPoint {
    pub coords_q: [i32; 5],
    pub sigma: SpectralSignature,
    pub id_digest: String,
}

/// The spiral's position, momentum and turn count.
#[derive(Debug, Clone, PartialEq, Eq)]
pub struct SpiralState {
    pub coords_q: [i32; 5],
    pub momentum_q: [i32; 5],
    pub step: u64,
}

/// The twist on axis `i` at turn `step`: `(step + i) mod 3 - 1`.
pub open spec fn twist(step: u64, i: int) -> int {
    (step + i) % 3 - 1
}

/// The momentum after one turn from turn count `step`: each axis bent by
/// its twist times `delta`, saturating.
pub open spec fn momentum_after(m: Seq<i32>, step: u64, delta: i32) -> Seq<i32> {
    Seq::new(5, |i: int| sat_i32(m[i] + twist(step, i) * delta))
}

/// The coordinates after one turn: each moved by the new momentum,
/// saturating.
pub open spec fn coords_after(c: Seq<i32>, m: Seq<i32>, step: u64, delta: i32) -> Seq<i32> {
    Seq::new(5, |i: int| sat_i32(c[i] + momentum_after(m, step, delta)[i]))
}

/// A turn is defined: the step counter and the twisted delta do not
/// overflow, and the new point can be evaluated.
pub open spec fn turn_ready(c: Seq<i32>, m: Seq<i32>, step: u64, delta: i32) -> bool {
    &&& step <= u64::MAX - 4
    &&& delta > i32::MIN
    &&& weights_fit(coords_after(c, m, step, delta))
}

pub open spec fn spiral_momentum(s: SpiralState, delta: i32) -> Seq<i32> {
    momentum_after(s.momentum_q@, s.step, delta)
}

pub open spec fn spiral_coords(s: SpiralState, delta: i32) -> Seq<i32> {
    coords_after(s.coords_q@, s.momentum_q@, s.step, delta)
}

pub open spec fn spiral_ready(s: SpiralState, delta: i32) -> bool {
    turn_ready(s.coords_q@, s.momentum_q@, s.step, delta)
}

/// The JSON form of a coordinate vector.
pub open spec fn coords_json(c: Seq<i32>) -> Json {
    Json::Array(c.map_values(|x: i32| int_json(x)))
}

/// The document whose digest names a point.
pub open spec fn point_payload(coords: Seq<i32>, sigma: SpectralSignature, step: u64) -> Json {
    Json::Object(
        seq![
            ("coords_q"@, coords_json(coords)),
            ("sigma"@, signature_json(sigma)),
            ("step"@, Json::Number(JsonNumber::U64(step))),
        ],
    )
}

/// The JSON form of a point: `coords_q`, `sigma`, `id_digest`.
pub open spec fn point_doc(coords: Seq<i32>, sigma: SpectralSignature, id: Seq<char>) -> Json {
    Json::Object(
        seq![("coords_q"@, coords_json(coords)), ("sigma"@, signature_json(sigma)), ("id_digest"@, Json::Str(id))],
    )
}

pub open spec fn point_json(p: ExplorationPoint) -> Json {
    point_doc(p.coords_q@, p.sigma, p.id_digest@)
}

/// The JSON form of a spiral state: `coords_q`, `momentum_q`, `step`.
pub open spec fn spiral_doc(coords: Seq<i32>, momentum: Seq<i32>, step: u64) -> Json {
    Json::Object(
        seq![
            ("coords_q"@, coords_json(coords)),
            ("momentum_q"@, coords_json(momentum)),
            ("step"@, Json::Number(JsonNumber::U64(step))),
        ],
    )
}

pub open spec fn spiral_json(s: SpiralState) -> Json {
    spiral_doc(s.coords_q@, s.momentum_q@, s.step)
}

proof fn lemma_coords_float_free(c: Seq<i32>)
    ensures
        float_free(coords_json(c)),
{
    let items = coords_json(c)->Array_0;
    lemma_float_free_list(items, items.len());
}

proof fn lemma_signature_float_free(s: SpectralSignature)
    ensures
        float_free(signature_json(s)),
{
    let fs = signature_json(s)->Object_0;
    lemma_float_free_members(fs, fs.len());
}

/// Points, spiral states and their payloads hold no Q16.16 numbers.
pub proof fn lemma_spiral_docs_float_free(c: Seq<i32>, m: Seq<i32>, sigma: SpectralSignature, step: u64, id: Seq<char>)
    ensures
        float_free(point_payload(c, sigma, step)),
        float_free(coords_json(c)),
        float_free(signature_json(sigma)),
        float_free(point_doc(c, sigma, id)),
        float_free(spiral_doc(c, m, step)),
{
    lemma_coords_float_free(c);
    lemma_coords_float_free(m);
    lemma_signature_float_free(sigma);
    let fs = point_payload(c, sigma, step)->Object_0;
    lemma_float_free_members(fs, fs.len());
    let fp = point_doc(c, sigma, id)->Object_0;
    lemma_float_free_members(fp, fp.len());
    let fq = spiral_doc(c, m, step)->Object_0;
    lemma_float_free_members(fq, fq.len());
}

/// The JSON form of a coordinate vector.
pub fn coords_to_json(c: &[i32; 5]) -> (r: JsonValue)
    ensures
        r@ == coords_json(c@),
{
    let mut items: Vec<JsonValue> = Vec::new();
    let mut i: usize = 0;
    while i < 5
        invariant
            i <= 5,
            c@.len() == 5,
            view_items(items@) == c@.take(i as int).map_values(|x: i32| int_json(x)),
        decreases 5 - i,
    {
        items_push(&mut items, int_value(c[i]));
        assert(c@.take(i + 1).map_values(|x: i32| int_json(x)) =~= c@.take(i as int).map_values(
            |x: i32| int_json(x),
        ).push(int_json(c@[i as int])));
        i = i + 1;
    }
    assert(c@.take(5) =~= c@);
    JsonValue::Array(items)
}

/// The point at `coords` with signature `sigma` after turn `step`, named by
/// the digest of its payload.
pub fn exploration_point(coords: [i32; 5], sigma: SpectralSignature, step: u64, rd: &RunDescriptor) -> (p: ExplorationPoint)
    ensures
        p.coords_q@ == coords@,
        p.sigma == sigma,
        json_digest(point_payload(coords@, sigma, step)) == Some(p.id_digest@),
{
    let mut f: Vec<(String, JsonValue)> = Vec::new();
    fields_push(&mut f, "coords_q", coords_to_json(&coords));
    fields_push(&mut f, "sigma", sigma.to_json());
    fields_push(&mut f, "step", JsonValue::Number(JsonNumber::U64(step)));
    assert(view_fields(f@) =~= point_payload(coords@, sigma, step)->Object_0);
    let payload = JsonValue::Object(f);
    proof {
        lemma_spiral_docs_float_free(coords@, coords@, sigma, step, seq![]);
        lemma_float_free_digest(payload@);
    }
    let id_digest = digest_sha256_jcs(&payload, rd).unwrap();
    ExplorationPoint { coords_q: coords, sigma, id_digest }
}

impl ExplorationPoint {
    /// The JSON form of the point.
    pub fn to_json(&self) -> (r: JsonValue)
        ensures
            r@ == point_json(*self),
    {
        let mut f: Vec<(String, JsonValue)> = Vec::new();
        fields_push(&mut f, "coords_q", coords_to_json(&self.coords_q));
        fields_push(&mut f, "sigma", self.sigma.to_json());
        fields_push(&mut f, "id_digest", JsonValue::Str(self.id_digest.clone()));
        assert(view_fields(f@) =~= point_json(*self)->Object_0);
        JsonValue::Object(f)
    }
}

impl SpiralState {
    /// The JSON form of the spiral state.
    pub fn to_json(&self) -> (r: JsonValue)
        ensures
            r@ == spiral_json(*self),
    {
        let mut f: Vec<(String, JsonValue)> = Vec::new();
        fields_push(&mut f, "coords_q", coords_to_json(&self.coords_q));
        fields_push(&mut f, "momentum_q", coords_to_json(&self.momentum_q));
        fields_push(&mut f, "step", JsonValue::Number(JsonNumber::U64(self.step)));
        assert(view_fields(f@) =~= spiral_json(*self)->Object_0);
        JsonValue::Object(f)
    }

    /// One turn of the spiral: momentum, coordinates, then the step count.
    pub fn advance(&mut self, ctx: &TritonContext)
        requires
            old(self).step <= u64::MAX - 4,
            ctx.spiral_delta_q > i32::MIN,
        ensures
            final(self).momentum_q@ == spiral_momentum(*old(self), ctx.spiral_delta_q),
            final(self).coords_q@ == spiral_coords(*old(self), ctx.spiral_delta_q),
            final(self).step == old(self).step + 1,
    {
        let ghost s0 = *self;
        let delta = ctx.spiral_delta_q;
        let mut i: usize = 0;
        while i < 5
            invariant
                i <= 5,
                self.step == s0.step,
                s0.step <= u64::MAX - 4,
                delta == ctx.spiral_delta_q,
                delta > i32::MIN,
                self.momentum_q@.len() == 5,
                self.coords_q@.len() == 5,
                forall|j: int| 0 <= j < i ==> #[trigger] self.momentum_q@[j] == spiral_momentum(s0, delta)[j],
                forall|j: int| 0 <= j < i ==> #[trigger] self.coords_q@[j] == spiral_coords(s0, delta)[j],
                forall|j: int| i <= j < 5 ==> #[trigger] self.momentum_q@[j] == s0.momentum_q@[j],
                forall|j: int| i <= j < 5 ==> #[trigger] self.coords_q@[j] == s0.coords_q@[j],
            decreases 5 - i,
        {
            let r = (self.step + i as u64) % 3;
            let bend: i32 = if r == 0 {
                -delta
            } else if r == 1 {
                0
            } else {
                delta
            };
            proof {
                let t = twist(s0.step, i as int);
                assert(t == r - 1);
                assert(bend == t * delta) by (nonlinear_arith)
                    requires
                        t == r - 1,
                        r < 3,
                        bend == (if r == 0 {
                            -delta
                        } else if r == 1 {
                            0
                        } else {
                            delta as int
                        }),
                ;
            }
            let m = sat_add_i32(self.momentum_q[i], bend);
            self.momentum_q[i] = m;
            let c = sat_add_i32(self.coords_q[i], m);
            self.coords_q[i] = c;
            i = i + 1;
        }
        assert(self.momentum_q@ =~= spiral_momentum(s0, delta));
        assert(self.coords_q@ =~= spiral_coords(s0, delta));
        self.step = self.step + 1;
    }

    /// One turn of the spiral, then the new point: evaluated by `evaluator`
    /// and named by the digest of its coordinates, signature and step.
    pub fn next<E: SpectralEvaluator>(&mut self, evaluator: &mut E, ctx: &TritonContext) -> (r: Result<
        ExplorationPoint,
        CoreError,
    >)
        requires
            old(self).step <= u64::MAX - 4,
            ctx.spiral_delta_q > i32::MIN,
            old(evaluator).spec_accepts(spiral_coords(*old(self), ctx.spiral_delta_q), *ctx),
        ensures
            final(self).momentum_q@ == spiral_momentum(*old(self), ctx.spiral_delta_q),
            final(self).coords_q@ == spiral_coords(*old(self), ctx.spiral_delta_q),
            final(self).step == old(self).step + 1,
            r is Ok,
            r matches Ok(p) ==> p.coords_q@ == final(self).coords_q@,
            r matches Ok(p) ==> p.sigma == old(evaluator).spec_evaluate(final(self).coords_q@, *ctx),
            r matches Ok(p) ==> json_digest(point_payload(p.coords_q@, p.sigma, final(self).step)) == Some(
                p.id_digest@,
            ),
    {
        self.advance(ctx);
        let sigma = evaluator.evaluate(self.coords_q, ctx);
        Ok(exploration_point(self.coords_q, sigma, self.step, &ctx.rd))
    }
}

/// The coordinate vector that a document denotes, if any: an array of
/// exactly five `i32`s.
pub open spec fn json_coords(j: Json) -> Option<Seq<i32>> {
    match j {
        Json::Array(items) => if items.len() == 5 && forall|i: int| 0 <= i < 5 ==> (#[trigger] json_i32(items[i])) is Some {
            Some(Seq::new(5, |i: int| json_i32(items[i]).unwrap()))
        } else {
            None
        },
        _ => None,
    }
}

/// The spiral state that `j` denotes, if any: coordinates, momentum, step.
pub open spec fn spiral_of(j: Json) -> Option<(Seq<i32>, Seq<i32>, u64)> {
    match member3(j, "coords_q"@, "momentum_q"@, "step"@) {
        Some((a, b, c)) => match (json_coords(a), json_coords(b), json_as_u64(c)) {
            (Some(x), Some(y), Some(z)) => Some((x, y, z)),
            _ => None,
        },
        None => None,
    }
}

/// `s` is the spiral state that `j` denotes.
pub open spec fn spiral_decodes(j: Json, s: SpiralState) -> bool {
    spiral_of(j) == Some((s.coords_q@, s.momentum_q@, s.step))
}

/// `j` denotes a spiral state.
pub open spec fn spiral_decodable(j: Json) -> bool {
    spiral_of(j) is Some
}

/// A point's data: coordinates, signature, identifying digest.
pub open spec fn point_data(p: ExplorationPoint) -> (Seq<i32>, SpectralSignature, Seq<char>) {
    (p.coords_q@, p.sigma, p.id_digest@)
}

/// The point that `j` denotes, if any.
pub open spec fn point_of(j: Json) -> Option<(Seq<i32>, SpectralSignature, Seq<char>)> {
    match member3(j, "coords_q"@, "sigma"@, "id_digest"@) {
        Some((a, b, c)) => match (json_coords(a), decode_signature(b), c) {
            (Some(x), Some(y), Json::Str(z)) => Some((x, y, z)),
            _ => None,
        },
        None => None,
    }
}

/// `p` is the point that `j` denotes.
pub open spec fn point_decodes(j: Json, p: ExplorationPoint) -> bool {
    point_of(j) == Some(point_data(p))
}

/// `j` denotes a point.
pub open spec fn point_decodable(j: Json) -> bool {
    point_of(j) is Some
}

/// The points that the array `j` denotes, if any.
pub open spec fn points_of(j: Json) -> Option<Seq<(Seq<i32>, SpectralSignature, Seq<char>)>> {
    match j {
        Json::Array(items) => if forall|i: int| 0 <= i < items.len() ==> (#[trigger] point_of(items[i])) is Some {
            Some(items.map_values(|x: Json| point_of(x).unwrap()))
        } else {
            None
        },
        _ => None,
    }
}

/// `ps` are the points that the array `j` denotes.
pub open spec fn points_decode(j: Json, ps: Seq<ExplorationPoint>) -> bool {
    points_of(j) == Some(ps.map_values(|p: ExplorationPoint| point_data(p)))
}

/// `j` is an array of points.
pub open spec fn points_decodable(j: Json) -> bool {
    points_of(j) is Some
}

/// The coordinate vector that `v` denotes, if any.
pub fn coords_of(v: &JsonValue) -> (r: Option<[i32; 5]>)
    ensures
        match r {
            Some(c) => json_coords(v@) == Some(c@),
            None => json_coords(v@) is None,
        },
{
    match v {
        JsonValue::Array(items) => {
            proof {
                lemma_view_items(items@);
            }
            let ghost iv = view_items(items@);
            if items.len() != 5 {
                return None;
            }
            let mut c: [i32; 5] = [0; 5];
            let mut i: usize = 0;
            while i < 5
                invariant
                    i <= 5,
                    items@.len() == 5,
                    iv == view_items(items@),
                    v@ == Json::Array(iv),
                    iv.len() == 5,
                    forall|j: int| 0 <= j < 5 ==> #[trigger] iv[j] == items@[j]@,
                    c@.len() == 5,
                    forall|j: int| 0 <= j < i ==> json_i32(#[trigger] iv[j]) == Some(c@[j]),
                decreases 5 - i,
            {
                match i32_of(&items[i]) {
                    Some(x) => {
                        c[i] = x;
                    },
                    None => {
                        assert(json_i32(iv[i as int]) is None);
                        return None;
                    },
                }
                i = i + 1;
            }
            assert(c@ =~= Seq::new(5, |j: int| json_i32(iv[j]).unwrap()));
            Some(c)
        },
        _ => None,
    }
}

impl SpiralState {
    /// The spiral state that `v` denotes, if any.
    pub fn from_json(v: &JsonValue) -> (r: Option<SpiralState>)
        ensures
            match r {
                Some(s) => spiral_decodes(v@, s),
                None => !spiral_decodable(v@),
            },
    {
        match members3(v, "coords_q", "momentum_q", "step") {
            Some((a, b, c)) => match (coords_of(a), coords_of(b), c.as_u64()) {
                (Some(x), Some(y), Some(z)) => Some(SpiralState { coords_q: x, momentum_q: y, step: z }),
                _ => None,
            },
            None => None,
        }
    }
}

impl ExplorationPoint {
    /// The point that `v` denotes, if any.
    pub fn from_json(v: &JsonValue) -> (r: Option<ExplorationPoint>)
        ensures
            match r {
                Some(p) => point_decodes(v@, p),
                None => !point_decodable(v@),
            },
    {
        match members3(v, "coords_q", "sigma", "id_digest") {
            Some((a, b, c)) => match (coords_of(a), SpectralSignature::from_json(b), c) {
                (Some(x), Some(y), JsonValue::Str(z)) => Some(ExplorationPoint { coords_q: x, sigma: y, id_digest: z.clone() }),
                _ => None,
            },
            None => None,
        }
    }

    /// The points that the array `v` denotes, if any.
    pub fn list_from_json(v: &JsonValue) -> (r: Option<Vec<ExplorationPoint>>)
        ensures
            match r {
                Some(ps) => points_decode(v@, ps@),
                None => !points_decodable(v@),
            },
    {
        match v {
            JsonValue::Array(items) => {
                proof {
                    lemma_view_items(items@);
                }
                let ghost iv = view_items(items@);
                let mut out: Vec<ExplorationPoint> = Vec::new();
                let mut i: usize = 0;
                while i < items.len()
                    invariant
                        i <= items@.len(),
                        iv == view_items(items@),
                        v@ == Json::Array(iv),
                        iv.len() == items@.len(),
                        forall|j: int| 0 <= j < items@.len() ==> #[trigger] iv[j] == items@[j]@,
                        out@.len() == i,
                        forall|j: int| 0 <= j < i ==> point_decodes(#[trigger] iv[j], out@[j]),
                        forall|j: int| 0 <= j < i ==> (#[trigger] point_of(iv[j])) is Some,
                    decreases items@.len() - i,
                {
                    match ExplorationPoint::from_json(&items[i]) {
                        Some(p) => {
                            out.push(p);
                        },
                        None => {
                            assert(!point_decodable(iv[i as int]));
                            assert(point_of(iv[i as int]) is None);
                            assert(!points_decodable(v@));
                            return None;
                        },
                    }
                    i = i + 1;
                }
                assert(iv.map_values(|x: Json| point_of(x).unwrap()) =~= out@.map_values(|p: ExplorationPoint| point_data(p)));
                Some(out)
            },
            _ => None,
        }
    }
}

} // verus!
