//! The library's JSON document model, its mathematical view, member access
//! with the semantics of a JSON object map, and deep copies.
use vstd::prelude::*;

use crate::text::str_eq;

verus! {

/// A JSON number. Integers keep their sign class; every other number is
/// held as a Q16.16 fixed-point value `q / 65536`, the form to which the
/// run descriptor's float policy maps all non-integral numbers.
#[derive(Debug, Clone, Copy, PartialEq)]
pub enum JsonNumber {
    I64(i64),
    U64(u64),
    Q16(i64),
}

/// An executable JSON document.
#[derive(Debug, PartialEq)]
pub enum JsonValue {
    Null,
    Bool(bool),
    Number(JsonNumber),
    Str(String),
    Array(Vec<JsonValue>),
    Object(Vec<(String, JsonValue)>),
}

/// The mathematical view of a JSON document.
pub enum Json {
    Null,
    Bool(bool),
    Number(JsonNumber),
    Str(Seq<char>),
    Array(Seq<Json>),
    Object(Seq<(Seq<char>, Json)>),
}

pub open spec fn view_value(v: JsonValue) -> Json
    decreases v,
{
    match v {
        JsonValue::Null => Json::Null,
        JsonValue::Bool(b) => Json::Bool(b),
        JsonValue::Number(n) => Json::Number(n),
        JsonValue::Str(s) => Json::Str(s@),
        JsonValue::Array(items) => Json::Array(view_items(items@)),
        JsonValue::Object(fields) => Json::Object(view_fields(fields@)),
    }
}

pub open spec fn view_items(s: Seq<JsonValue>) -> Seq<Json>
    decreases s,
{
    if s.len() == 0 {
        seq![]
    } else {
        view_items(s.drop_last()).push(view_value(s.last()))
    }
}

pub open spec fn view_fields(s: Seq<(String, JsonValue)>) -> Seq<(Seq<char>, Json)>
    decreases s,
{
    if s.len() == 0 {
        seq![]
    } else {
        view_fields(s.drop_last()).push((s.last().0@, view_value(s.last().1)))
    }
}

impl View for JsonValue {
    type V = Json;

    open spec fn view(&self) -> Json {
        view_value(*self)
    }
}

pub proof fn lemma_view_items(s: Seq<JsonValue>)
    ensures
        view_items(s).len() == s.len(),
        forall|i: int| 0 <= i < s.len() ==> #[trigger] view_items(s)[i] == view_value(s[i]),
    decreases s.len(),
{
    if s.len() > 0 {
        lemma_view_items(s.drop_last());
        assert forall|i: int| 0 <= i < s.len() implies #[trigger] view_items(s)[i] == view_value(
            s[i],
        ) by {
            if i < s.len() - 1 {
                assert(s.drop_last()[i] == s[i]);
            }
        }
    }
}

pub proof fn lemma_view_fields(s: Seq<(String, JsonValue)>)
    ensures
        view_fields(s).len() == s.len(),
        forall|i: int|
            0 <= i < s.len() ==> #[trigger] view_fields(s)[i] == (s[i].0@, view_value(s[i].1)),
    decreases s.len(),
{
    if s.len() > 0 {
        lemma_view_fields(s.drop_last());
        assert forall|i: int| 0 <= i < s.len() implies #[trigger] view_fields(s)[i] == (
            s[i].0@,
            view_value(s[i].1),
        ) by {
            if i < s.len() - 1 {
                assert(s.drop_last()[i] == s[i]);
            }
        }
    }
}

/// Index of the first member whose key is `k`, if any.
pub open spec fn first_key(fs: Seq<(Seq<char>, Json)>, k: Seq<char>, i: int) -> bool {
    &&& 0 <= i < fs.len()
    &&& fs[i].0 == k
    &&& forall|j: int| 0 <= j < i ==> fs[j].0 != k
}

pub open spec fn has_key(fs: Seq<(Seq<char>, Json)>, k: Seq<char>) -> bool {
    exists|i: int| first_key(fs, k, i)
}

pub open spec fn key_index(fs: Seq<(Seq<char>, Json)>, k: Seq<char>) -> int {
    choose|i: int| first_key(fs, k, i)
}

pub proof fn lemma_first_key_unique(fs: Seq<(Seq<char>, Json)>, k: Seq<char>, i: int)
    requires
        first_key(fs, k, i),
    ensures
        has_key(fs, k),
        key_index(fs, k) == i,
{
    let c = key_index(fs, k);
    assert(first_key(fs, k, c));
    if c < i {
        assert(fs[c].0 != k);
    }
    if i < c {
        assert(fs[i].0 != k);
    }
}

/// The value of member `k` (the first one with that key).
pub open spec fn fields_get(fs: Seq<(Seq<char>, Json)>, k: Seq<char>) -> Option<Json> {
    if has_key(fs, k) {
        Some(fs[key_index(fs, k)].1)
    } else {
        None
    }
}

/// Members after setting `k` to `x`: the member is replaced in place, or
/// appended when absent.
pub open spec fn fields_set(fs: Seq<(Seq<char>, Json)>, k: Seq<char>, x: Json) -> Seq<
    (Seq<char>, Json),
> {
    if has_key(fs, k) {
        fs.update(key_index(fs, k), (k, x))
    } else {
        fs.push((k, x))
    }
}

/// Member lookup on a document: only objects have members.
pub open spec fn json_get(j: Json, k: Seq<char>) -> Option<Json> {
    match j {
        Json::Object(fs) => fields_get(fs, k),
        _ => None,
    }
}

/// Member indexing: a missing member, or a non-object, reads as `null`.
pub open spec fn json_index(j: Json, k: Seq<char>) -> Json {
    match json_get(j, k) {
        Some(x) => x,
        None => Json::Null,
    }
}

/// Assignment to member `k`: `null` first becomes an empty object.
pub open spec fn json_set(j: Json, k: Seq<char>, x: Json) -> Json {
    match j {
        Json::Object(fs) => Json::Object(fields_set(fs, k, x)),
        _ => Json::Object(seq![(k, x)]),
    }
}

/// Whether member assignment is defined on `j` (it is on `null` and objects).
pub open spec fn assignable(j: Json) -> bool {
    j is Null || j is Object
}

/// Assignment to member `k2` of member `k1`.
pub open spec fn json_set2(j: Json, k1: Seq<char>, k2: Seq<char>, x: Json) -> Json {
    json_set(j, k1, json_set(json_index(j, k1), k2, x))
}

impl JsonValue {
    /// Finds the first member with key `key`.
    #[verifier::loop_isolation(false)]
    fn find_key(fields: &Vec<(String, JsonValue)>, key: &str) -> (r: Option<usize>)
        ensures
            match r {
                Some(i) => first_key(view_fields(fields@), key@, i as int),
                None => !has_key(view_fields(fields@), key@),
            },
    {
        proof {
            lemma_view_fields(fields@);
        }
        let mut i: usize = 0;
        while i < fields.len()
            invariant
                i <= fields.len(),
                view_fields(fields@).len() == fields@.len(),
                forall|j: int| 0 <= j < i ==> #[trigger] view_fields(fields@)[j].0 != key@,
            decreases fields.len() - i,
        {
            if str_eq(fields[i].0.as_str(), key) {
                assert(view_fields(fields@)[i as int].0 == key@);
                return Some(i);
            }
            i = i + 1;
        }
        proof {
            if has_key(view_fields(fields@), key@) {
                let c = key_index(view_fields(fields@), key@);
                assert(first_key(view_fields(fields@), key@, c));
            }
        }
        None
    }

    /// Member lookup (`serde_json::Value::get` with a string key).
    pub fn get<'a>(&'a self, key: &str) -> (r: Option<&'a JsonValue>)
        ensures
            r is Some <==> json_get(self@, key@) is Some,
            r matches Some(x) ==> json_get(self@, key@) == Some(x@),
    {
        match self {
            JsonValue::Object(fields) => {
                proof {
                    lemma_view_fields(fields@);
                }
                match Self::find_key(fields, key) {
                    Some(i) => {
                        proof {
                            lemma_first_key_unique(view_fields(fields@), key@, i as int);
                        }
                        Some(&fields[i].1)
                    },
                    None => None,
                }
            },
            _ => None,
        }
    }

    /// Member assignment (`value[key] = x`). Defined on `null` and objects.
    pub fn set(&mut self, key: String, x: JsonValue)
        requires
            assignable(old(self)@),
        ensures
            final(self)@ == json_set(old(self)@, key@, x@),
    {
        let ghost j0 = self@;
        let mut cur = JsonValue::Null;
        std::mem::swap(self, &mut cur);
        match cur {
            JsonValue::Object(mut fields) => {
                proof {
                    lemma_view_fields(fields@);
                }
                let ghost fv = view_fields(fields@);
                let ghost xv = x@;
                let ghost kv = key@;
                match Self::find_key(&fields, key.as_str()) {
                    Some(i) => {
                        proof {
                            lemma_first_key_unique(fv, kv, i as int);
                        }
                        fields.set(i, (key, x));
                        proof {
                            lemma_view_fields(fields@);
                            assert(view_fields(fields@) =~= fv.update(i as int, (kv, xv)));
                        }
                    },
                    None => {
                        fields.push((key, x));
                        proof {
                            lemma_view_fields(fields@);
                            assert(view_fields(fields@) =~= fv.push((kv, xv)));
                        }
                    },
                }
                *self = JsonValue::Object(fields);
            },
            _ => {
                let ghost kv = key@;
                let ghost xv = x@;
                let mut fields: Vec<(String, JsonValue)> = Vec::new();
                fields.push((key, x));
                proof {
                    lemma_view_fields(fields@);
                    assert(view_fields(fields@) =~= seq![(kv, xv)]);
                }
                *self = JsonValue::Object(fields);
            },
        }
    }

    /// A copy of the document.
    #[verifier::loop_isolation(false)]
    pub fn deep_clone(&self) -> (r: JsonValue)
        ensures
            r@ == self@,
        decreases self,
    {
        match self {
            JsonValue::Null => JsonValue::Null,
            JsonValue::Bool(b) => JsonValue::Bool(*b),
            JsonValue::Number(n) => JsonValue::Number(*n),
            JsonValue::Str(s) => JsonValue::Str(s.clone()),
            JsonValue::Array(items) => {
                let mut out: Vec<JsonValue> = Vec::new();
                for i in 0..items.len()
                    invariant
                        out@.len() == i,
                        forall|j: int|
                            0 <= j < i ==> #[trigger] view_value(out@[j]) == view_value(items@[j]),
                {
                    out.push(items[i].deep_clone());
                }
                proof {
                    lemma_view_items(out@);
                    lemma_view_items(items@);
                    assert(view_items(out@) =~= view_items(items@));
                }
                JsonValue::Array(out)
            },
            JsonValue::Object(fields) => {
                let mut out: Vec<(String, JsonValue)> = Vec::new();
                for i in 0..fields.len()
                    invariant
                        out@.len() == i,
                        forall|j: int|
                            0 <= j < i ==> #[trigger] out@[j].0@ == fields@[j].0@ && view_value(
                                out@[j].1,
                            ) == view_value(fields@[j].1),
                {
                    out.push((fields[i].0.clone(), fields[i].1.deep_clone()));
                }
                proof {
                    lemma_view_fields(out@);
                    lemma_view_fields(fields@);
                    assert(view_fields(out@) =~= view_fields(fields@));
                }
                JsonValue::Object(out)
            },
        }
    }
}

/// A string document.
pub fn json_str(s: &str) -> (r: JsonValue)
    ensures
        r@ == Json::Str(s@),
{
    JsonValue::Str(crate::text::string_of(s))
}

/// Appends a member to a member list.
pub fn fields_push(fields: &mut Vec<(String, JsonValue)>, key: &str, v: JsonValue)
    ensures
        view_fields(final(fields)@) == view_fields(old(fields)@).push((key@, v@)),
{
    let ghost f0 = fields@;
    let k = crate::text::string_of(key);
    fields.push((k, v));
    assert(fields@.drop_last() == f0);
}

/// Appends an item to an item list.
pub fn items_push(items: &mut Vec<JsonValue>, v: JsonValue)
    ensures
        view_items(final(items)@) == view_items(old(items)@).push(v@),
{
    let ghost i0 = items@;
    items.push(v);
    assert(items@.drop_last() == i0);
}

proof fn lemma_first_from(fs: Seq<(Seq<char>, Json)>, k: Seq<char>, j: int)
    requires
        0 <= j <= fs.len(),
        forall|m: int| 0 <= m < j ==> fs[m].0 != k,
        exists|m: int| j <= m < fs.len() && fs[m].0 == k,
    ensures
        has_key(fs, k),
    decreases fs.len() - j,
{
    if fs[j].0 == k {
        assert(first_key(fs, k, j));
    } else {
        let m = choose|m: int| j <= m < fs.len() && fs[m].0 == k;
        assert(j + 1 <= m);
        lemma_first_from(fs, k, j + 1);
    }
}

/// A member list has key `k` exactly when some member has key `k`.
pub proof fn lemma_has_key_iff(fs: Seq<(Seq<char>, Json)>, k: Seq<char>)
    ensures
        has_key(fs, k) <==> exists|m: int| 0 <= m < fs.len() && fs[m].0 == k,
{
    if exists|m: int| 0 <= m < fs.len() && fs[m].0 == k {
        lemma_first_from(fs, k, 0);
    }
    if has_key(fs, k) {
        let c = key_index(fs, k);
        assert(first_key(fs, k, c));
    }
}

/// Setting member `k` leaves every other member as it was.
pub proof fn lemma_set_get_other(j: Json, k: Seq<char>, x: Json, t: Seq<char>)
    requires
        assignable(j),
        k != t,
    ensures
        json_get(json_set(j, k, x), t) == json_get(j, t),
        json_index(json_set(j, k, x), t) == json_index(j, t),
{
    match j {
        Json::Object(fs) => {
            let fs2 = fields_set(fs, k, x);
            lemma_has_key_iff(fs, k);
            lemma_has_key_iff(fs, t);
            lemma_has_key_iff(fs2, t);
            if has_key(fs, k) {
                let i = key_index(fs, k);
                assert(first_key(fs, k, i));
                assert(fs2 == fs.update(i, (k, x)));
            }
            assert forall|m: int| 0 <= m < fs2.len() && fs2[m].0 == t implies m < fs.len() && fs[m] == fs2[m] by {}
            if has_key(fs, t) {
                let c = key_index(fs, t);
                assert(first_key(fs, t, c));
                assert(first_key(fs2, t, c));
                lemma_first_key_unique(fs2, t, c);
            }
        },
        _ => {
            let fs2 = seq![(k, x)];
            lemma_has_key_iff(fs2, t);
        },
    }
}

/// After setting member `k` to `x`, member `k` is `x`.
pub proof fn lemma_set_get_same(j: Json, k: Seq<char>, x: Json)
    requires
        assignable(j),
    ensures
        json_get(json_set(j, k, x), k) == Some(x),
{
    match j {
        Json::Object(fs) => {
            let fs2 = fields_set(fs, k, x);
            lemma_has_key_iff(fs, k);
            if has_key(fs, k) {
                let i = key_index(fs, k);
                assert(first_key(fs, k, i));
                assert(first_key(fs2, k, i));
                lemma_first_key_unique(fs2, k, i);
            } else {
                assert(first_key(fs2, k, fs.len() as int));
                lemma_first_key_unique(fs2, k, fs.len() as int);
            }
        },
        _ => {
            assert(first_key(seq![(k, x)], k, 0));
            lemma_first_key_unique(seq![(k, x)], k, 0);
        },
    }
}

/// The unsigned integer a number document denotes, if any
/// (`serde_json::Value::as_u64`).
pub open spec fn json_as_u64(j: Json) -> Option<u64> {
    match j {
        Json::Number(JsonNumber::U64(u)) => Some(u),
        Json::Number(JsonNumber::I64(i)) => if i >= 0 {
            Some(i as u64)
        } else {
            None
        },
        _ => None,
    }
}

/// The boolean a document denotes, if any (`serde_json::Value::as_bool`).
pub open spec fn json_as_bool(j: Json) -> Option<bool> {
    match j {
        Json::Bool(b) => Some(b),
        _ => None,
    }
}

impl JsonValue {
    pub fn as_u64(&self) -> (r: Option<u64>)
        ensures
            r == json_as_u64(self@),
    {
        match self {
            JsonValue::Number(JsonNumber::U64(u)) => Some(*u),
            JsonValue::Number(JsonNumber::I64(i)) => if *i >= 0 {
                Some(*i as u64)
            } else {
                None
            },
            _ => None,
        }
    }

    pub fn as_bool(&self) -> (r: Option<bool>)
        ensures
            r == json_as_bool(self@),
    {
        match self {
            JsonValue::Bool(b) => Some(*b),
            _ => None,
        }
    }

    /// Member indexing (`value[key]`): a copy of the member, or `null`.
    pub fn index(&self, key: &str) -> (r: JsonValue)
        ensures
            r@ == json_index(self@, key@),
    {
        match self.get(key) {
            Some(x) => x.deep_clone(),
            None => JsonValue::Null,
        }
    }

    /// Assignment to member `k2` of member `k1` (`value[k1][k2] = x`).
    pub fn set2(&mut self, k1: &str, k2: &str, x: JsonValue)
        requires
            assignable(old(self)@),
            assignable(json_index(old(self)@, k1@)),
        ensures
            final(self)@ == json_set2(old(self)@, k1@, k2@, x@),
    {
        let mut inner = self.index(k1);
        inner.set(crate::text::string_of(k2), x);
        self.set(crate::text::string_of(k1), inner);
    }
}

} // verus!
