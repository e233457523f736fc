//! TIC crystallization: the points with the highest spectral score, ties
//! broken by digest, sealed by the digest of their identifiers.
use vstd::prelude::*;

use crate::canon_jcs::{float_free, lemma_float_free_list, lemma_float_free_members};
use crate::digest::{digest_sha256_jcs, json_digest};
use crate::errors::CoreError;
use crate::evidence::lemma_float_free_digest;
use crate::json::{
    fields_push, first_key, items_push, json_str, lemma_first_key_unique, view_fields, view_items, Json, JsonValue,
};
use crate::tie_break::{
    lemma_score_rank_orders, payload_digests, score_before, score_order, score_rank, scores_of,
    sort_by_score_then_digest,
};
use crate::triton::spectral::{SpectralSignature, TritonContext};
use crate::triton::spiral::{point_data, ExplorationPoint};
use crate::types::ScoredValue;

verus! {

/// The selected point digests and the digest that seals them.
#[derive(Debug, Clone, PartialEq, Eq)]
pub struct TicCrystallization {
    pub selected_point_digests: Vec<String>,
    pub crystal_digest: String,
}

/// A point's score: the sum of its signature's components (Q16.16).
pub open spec fn point_score(p: ExplorationPoint) -> i64 {
    (p.sigma.psi_q + p.sigma.rho_q + p.sigma.omega_q) as i64
}

/// The payload that stands for a point when scores tie: `{"id_digest": id}`.
pub open spec fn score_payload(id: Seq<char>) -> Json {
    Json::Object(seq![("id_digest"@, Json::Str(id))])
}

/// How many points are selected: all of them, or `tic_min_points` (at least
/// one) if fewer.
pub open spec fn take_count(n: nat, tic_min_points: usize) -> nat {
    let want: nat = if tic_min_points == 0 {
        1
    } else {
        tic_min_points as nat
    };
    if n < want {
        n
    } else {
        want
    }
}

pub open spec fn strings_array(s: Seq<Seq<char>>) -> Json {
    Json::Array(s.map_values(|x: Seq<char>| Json::Str(x)))
}

/// The document whose digest seals a selection: `{"selected": [...]}`.
pub open spec fn selection_doc(sel: Seq<Seq<char>>) -> Json {
    Json::Object(seq![("selected"@, strings_array(sel))])
}

/// The JSON form of a crystallization.
pub open spec fn crystal_json(c: TicCrystallization) -> Json {
    Json::Object(
        seq![
            ("selected_point_digests"@, strings_array(c.selected_point_digests@.map_values(|x: String| x@))),
            ("crystal_digest"@, Json::Str(c.crystal_digest@)),
        ],
    )
}

/// A point's score: the sum of its signature's components (Q16.16).
pub open spec fn data_score(x: (Seq<i32>, SpectralSignature, Seq<char>)) -> i64 {
    (x.1.psi_q + x.1.rho_q + x.1.omega_q) as i64
}

/// The digest that breaks a score tie between points.
pub open spec fn data_tie(x: (Seq<i32>, SpectralSignature, Seq<char>)) -> Seq<char> {
    json_digest(score_payload(x.2)).unwrap()
}

/// The order in which points are considered: by descending score, ties by
/// ascending tie digest, equal keys in their original order.
pub open spec fn crystal_order(ps: Seq<(Seq<i32>, SpectralSignature, Seq<char>)>) -> Seq<int> {
    score_rank(
        ps.map_values(|x: (Seq<i32>, SpectralSignature, Seq<char>)| data_score(x)),
        ps.map_values(|x: (Seq<i32>, SpectralSignature, Seq<char>)| data_tie(x)),
        ps.len(),
    )
}

/// The identifiers of the first `take_count` points in crystal order.
pub open spec fn selected_ids(ps: Seq<(Seq<i32>, SpectralSignature, Seq<char>)>, tic_min_points: usize) -> Seq<Seq<char>> {
    Seq::new(take_count(ps.len(), tic_min_points), |i: int| ps[crystal_order(ps)[i]].2)
}

/// The digest that seals a selection.
pub open spec fn crystal_digest_of(ps: Seq<(Seq<i32>, SpectralSignature, Seq<char>)>, tic_min_points: usize) -> Seq<char> {
    json_digest(selection_doc(selected_ids(ps, tic_min_points))).unwrap()
}

/// The JSON form of the crystallization of `ps`.
pub open spec fn crystal_doc(ps: Seq<(Seq<i32>, SpectralSignature, Seq<char>)>, tic_min_points: usize) -> Json {
    Json::Object(
        seq![
            ("selected_point_digests"@, strings_array(selected_ids(ps, tic_min_points))),
            ("crystal_digest"@, Json::Str(crystal_digest_of(ps, tic_min_points))),
        ],
    )
}

/// Crystal order lists every point once, highest score first, ties by
/// ascending tie digest, equal keys in their original order.
pub proof fn lemma_crystal_order(ps: Seq<(Seq<i32>, SpectralSignature, Seq<char>)>)
    ensures
        score_order(
            crystal_order(ps),
            ps.map_values(|x: (Seq<i32>, SpectralSignature, Seq<char>)| data_score(x)),
            ps.map_values(|x: (Seq<i32>, SpectralSignature, Seq<char>)| data_tie(x)),
            ps.len(),
        ),
{
    lemma_score_rank_orders(
        ps.map_values(|x: (Seq<i32>, SpectralSignature, Seq<char>)| data_score(x)),
        ps.map_values(|x: (Seq<i32>, SpectralSignature, Seq<char>)| data_tie(x)),
        ps.len(),
    );
}

/// What a crystallization selects, in terms of the points: the selected
/// identifiers are those of distinct points, as many as `tic_min_points`
/// (at least one, at most all points), and every selected point's
/// `psi + rho + omega` is at least that of every point left out.
pub proof fn lemma_crystal_selection(
    points: Seq<ExplorationPoint>,
    tic_min_points: usize,
    selected: Seq<Seq<char>>,
)
    requires
        selected == selected_ids(points.map_values(|p: ExplorationPoint| point_data(p)), tic_min_points),
    ensures
        exists|o: Seq<int>|
            {
                &&& o.len() == points.len()
                &&& forall|i: int, j: int| 0 <= i < j < o.len() ==> o[i] != o[j]
                &&& forall|i: int| 0 <= i < o.len() ==> 0 <= #[trigger] o[i] < points.len()
                &&& selected.len() == (if points.len() < (if tic_min_points == 0 { 1 } else { tic_min_points as int }) {
                    points.len() as int
                } else if tic_min_points == 0 {
                    1
                } else {
                    tic_min_points as int
                })
                &&& forall|i: int| 0 <= i < selected.len() ==> #[trigger] selected[i] == points[o[i]].id_digest@
                &&& forall|i: int, j: int|
                    0 <= i < selected.len() <= j < o.len() ==> points[o[i]].sigma.psi_q + points[o[i]].sigma.rho_q
                        + points[o[i]].sigma.omega_q >= points[o[j]].sigma.psi_q + points[o[j]].sigma.rho_q
                        + points[o[j]].sigma.omega_q
            },
{
    let pd = points.map_values(|p: ExplorationPoint| point_data(p));
    let o = crystal_order(pd);
    lemma_crystal_order(pd);
    let sc = pd.map_values(|x: (Seq<i32>, SpectralSignature, Seq<char>)| data_score(x));
    let dg = pd.map_values(|x: (Seq<i32>, SpectralSignature, Seq<char>)| data_tie(x));
    assert forall|i: int, j: int|
        0 <= i < selected.len() <= j < o.len() implies points[o[i]].sigma.psi_q + points[o[i]].sigma.rho_q
        + points[o[i]].sigma.omega_q >= points[o[j]].sigma.psi_q + points[o[j]].sigma.rho_q
        + points[o[j]].sigma.omega_q by {
        assert(!score_before(sc, dg, o[j], o[i]));
        assert(sc[o[i]] == data_score(pd[o[i]]));
        assert(sc[o[j]] == data_score(pd[o[j]]));
    }
    assert forall|i: int| 0 <= i < selected.len() implies #[trigger] selected[i] == points[o[i]].id_digest@ by {}
}

proof fn lemma_strings_array_float_free(s: Seq<Seq<char>>)
    ensures
        float_free(strings_array(s)),
{
    let items = strings_array(s)->Array_0;
    lemma_float_free_list(items, items.len());
}

/// The JSON array of a list of strings.
fn strings_value(s: &Vec<String>) -> (r: JsonValue)
    ensures
        r@ == strings_array(s@.map_values(|x: String| x@)),
{
    let mut items: Vec<JsonValue> = Vec::new();
    for i in 0..s.len()
        invariant
            view_items(items@) == s@.take(i as int).map_values(|x: String| Json::Str(x@)),
    {
        items_push(&mut items, json_str(s[i].as_str()));
        assert(s@.take(i + 1).map_values(|x: String| Json::Str(x@)) =~= s@.take(i as int).map_values(
            |x: String| Json::Str(x@),
        ).push(Json::Str(s@[i as int]@)));
    }
    assert(s@.take(s@.len() as int) == s@);
    assert(s@.map_values(|x: String| Json::Str(x@)) =~= s@.map_values(|x: String| x@).map_values(
        |x: Seq<char>| Json::Str(x),
    ));
    JsonValue::Array(items)
}

/// Crystallizes `points`: scores them by the sum of their signature's
/// components, orders them highest first with ties broken by the digest of
/// `{"id_digest": id}`, keeps the first `take_count`, and seals their
/// identifiers with the digest of `{"selected": [...]}`.
#[verifier::loop_isolation(false)]
pub fn crystallize(points: &Vec<ExplorationPoint>, ctx: &TritonContext) -> (r: Result<TicCrystallization, CoreError>)
    ensures
        r matches Ok(c) && {
            let pd = points@.map_values(|p: ExplorationPoint| point_data(p));
            &&& c.selected_point_digests@.map_values(|x: String| x@) == selected_ids(pd, ctx.tic_min_points)
            &&& json_digest(selection_doc(selected_ids(pd, ctx.tic_min_points))) == Some(c.crystal_digest@)
        },
{
    let ghost pv = points@;
    let n = points.len();
    let mut scored: Vec<ScoredValue> = Vec::new();
    for i in 0..n
        invariant
            n == pv.len(),
            scored@.len() == i,
            forall|j: int| #![trigger scored@[j]] 0 <= j < i ==> scored@[j].score == point_score(pv[j]) && scored@[j].payload@
                == score_payload(pv[j].id_digest@),
    {
        let p = &points[i];
        let score: i64 = p.sigma.psi_q as i64 + p.sigma.rho_q as i64 + p.sigma.omega_q as i64;
        let mut f: Vec<(String, JsonValue)> = Vec::new();
        fields_push(&mut f, "id_digest", json_str(p.id_digest.as_str()));
        assert(view_fields(f@) =~= score_payload(p.id_digest@)->Object_0);
        scored.push(ScoredValue { score, payload: JsonValue::Object(f) });
    }
    let ghost s0 = scored@;
    proof {
        assert forall|i: int| 0 <= i < s0.len() implies (#[trigger] json_digest(s0[i].payload@)) is Some by {
            let fs = score_payload(pv[i].id_digest@)->Object_0;
            lemma_float_free_members(fs, fs.len());
            lemma_float_free_digest(s0[i].payload@);
        }
    }
    let sorted = sort_by_score_then_digest(&mut scored, &ctx.rd);
    if sorted.is_err() {
        return Err(CoreError::NumberCanonicalizationFailed);
    }
    let ghost pd = pv.map_values(|p: ExplorationPoint| point_data(p));
    let ghost o = score_rank(scores_of(s0), payload_digests(s0), s0.len() as nat);
    proof {
        lemma_score_rank_orders(scores_of(s0), payload_digests(s0), s0.len() as nat);
        assert(scores_of(s0) =~= pd.map_values(|x: (Seq<i32>, SpectralSignature, Seq<char>)| data_score(x)));
        assert(payload_digests(s0) =~= pd.map_values(|x: (Seq<i32>, SpectralSignature, Seq<char>)| data_tie(x)));
        assert(o == crystal_order(pd));
    }
    let want: usize = if ctx.tic_min_points == 0 {
        1
    } else {
        ctx.tic_min_points
    };
    let take_n: usize = if n < want {
        n
    } else {
        want
    };
    let mut selected: Vec<String> = Vec::new();
    for i in 0..take_n
        invariant
            take_n <= n,
            scored@.len() == n,
            o.len() == n,
            forall|j: int| 0 <= j < o.len() ==> 0 <= #[trigger] o[j] < n,
            forall|j: int| 0 <= j < n ==> (#[trigger] scored@[j]).payload@ == score_payload(pv[o[j]].id_digest@),
            selected@.len() == i,
            forall|j: int| 0 <= j < i ==> (#[trigger] selected@[j])@ == pv[o[j]].id_digest@,
    {
        let ghost fs = score_payload(pv[o[i as int]].id_digest@)->Object_0;
        proof {
            assert(first_key(fs, "id_digest"@, 0));
            lemma_first_key_unique(fs, "id_digest"@, 0);
        }
        let id = match scored[i].payload.get("id_digest") {
            Some(JsonValue::Str(s)) => s.clone(),
            _ => String::new(),
        };
        selected.push(id);
    }
    let mut f: Vec<(String, JsonValue)> = Vec::new();
    fields_push(&mut f, "selected", strings_value(&selected));
    let ghost sv = selected@.map_values(|x: String| x@);
    assert(view_fields(f@) =~= selection_doc(sv)->Object_0);
    let doc = JsonValue::Object(f);
    proof {
        lemma_strings_array_float_free(sv);
        let fs = selection_doc(sv)->Object_0;
        lemma_float_free_members(fs, fs.len());
        lemma_float_free_digest(doc@);
    }
    let crystal_digest = match digest_sha256_jcs(&doc, &ctx.rd) {
        Ok(d) => d,
        Err(e) => {
            return Err(e);
        },
    };
    assert(sv =~= selected_ids(pd, ctx.tic_min_points));
    Ok(TicCrystallization { selected_point_digests: selected, crystal_digest })
}

impl TicCrystallization {
    /// The JSON form of the crystallization.
    pub fn to_json(&self) -> (r: JsonValue)
        ensures
            r@ == crystal_json(*self),
            float_free(r@),
    {
        let mut f: Vec<(String, JsonValue)> = Vec::new();
        fields_push(&mut f, "selected_point_digests", strings_value(&self.selected_point_digests));
        fields_push(&mut f, "crystal_digest", json_str(self.crystal_digest.as_str()));
        assert(view_fields(f@) =~= crystal_json(*self)->Object_0);
        proof {
            lemma_strings_array_float_free(self.selected_point_digests@.map_values(|x: String| x@));
            let fs = crystal_json(*self)->Object_0;
            lemma_float_free_members(fs, fs.len());
        }
        JsonValue::Object(f)
    }
}

} // verus!
