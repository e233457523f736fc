//! Canonical JSON text (members ordered by key, no insignificant white
//! space) and its UTF-8 bytes.
use vstd::prelude::*;

use crate::errors::CoreError;
use crate::normalize::{nfc, nfc_text};
use crate::json::{assignable, fields_set, json_set, key_index, first_key, has_key, lemma_view_fields, lemma_view_items, view_fields, view_items, view_value, Json, JsonNumber, JsonValue};
use crate::rd::{FloatPolicy, RunDescriptor};
use crate::text::{
    chars_of, digit_char, digit_to_char, int_decimal, is_digit, json_quoted, key_lt, lemma_digit_char,
    lemma_nat_decimal_digits, lemma_nat_decimal_leading, nat_decimal, push_i64_decimal, utf16_key, utf16_sort_key,
    push_json_quoted, push_str, push_u64_decimal, str_lt, string_from_chars, string_push,
};
use vstd::string::StrSliceExecFns;

verus! {

/// `k` decimal digits of `n` (the lowest `k`), with leading zeros.
pub open spec fn fixed_digits(n: nat, k: nat) -> Seq<char>
    decreases k,
{
    if k == 0 {
        seq![]
    } else {
        fixed_digits(n / 10, (k - 1) as nat).push(digit_char(n % 10))
    }
}

/// Drops trailing `0` characters, keeping at least one character.
pub open spec fn strip_trailing_zeros(s: Seq<char>) -> Seq<char>
    decreases s.len(),
{
    if s.len() > 1 && s.last() == '0' {
        strip_trailing_zeros(s.drop_last())
    } else {
        s
    }
}

pub open spec fn abs_int(q: int) -> nat {
    if q < 0 {
        (-q) as nat
    } else {
        q as nat
    }
}

/// The exact decimal expansion of `q / 65536`, always with a fractional
/// part (`65536` divides `10^16`, so sixteen fractional digits suffice).
pub open spec fn q16_decimal(q: int) -> Seq<char> {
    (if q < 0 {
        seq!['-']
    } else {
        seq![]
    }) + nat_decimal(abs_int(q) / 65536) + seq!['.'] + strip_trailing_zeros(
        fixed_digits(((abs_int(q) % 65536) * 152587890625) as nat, 16),
    )
}

/// `u` is one to fifteen digits, `.` at position `i`, then one to sixteen
/// digits.
pub open spec fn point_at(u: Seq<char>, i: int) -> bool {
    &&& 1 <= i <= 15
    &&& i + 2 <= u.len() <= i + 17
    &&& u[i] == '.'
    &&& forall|x: int| 0 <= x < u.len() && x != i ==> is_digit(#[trigger] u[x])
    &&& i > 1 ==> u[0] != '0'
}

/// A plain decimal: an optional `-`, one to fifteen digits without a
/// leading zero (a lone `0` aside), `.`, and one to sixteen digits.
pub open spec fn plain_decimal(t: Seq<char>) -> bool {
    if t.len() > 0 && t[0] == '-' {
        exists|i: int| #[trigger] point_at(t.drop_first(), i)
    } else {
        exists|i: int| #[trigger] point_at(t, i)
    }
}

/// The text that `serde_json` prints for the number it reads from the
/// decimal text `exact` (`None` where it reads no number).
pub uninterp spec fn float_number_text(exact: Seq<char>) -> Option<Seq<char>>;

/// Reads a JSON number from decimal text and prints it back with
/// `serde_json` (`Number::from_str`, then `Display`). The result is named
/// `float_number_text`. Claimed besides: a plain decimal is read (the
/// number grammar accepts `-?(0|[1-9][0-9]*)\.[0-9]+`, and fifteen integer
/// digits stay far below the largest finite double).
#[verifier::external_body]
fn serde_number_text(exact: &str) -> (r: Option<String>)
    ensures
        r is Some <==> float_number_text(exact@) is Some,
        r matches Some(t) ==> float_number_text(exact@) == Some(t@),
        plain_decimal(exact@) ==> r is Some,
{
    match exact.parse::<serde_json::Number>() {
        Ok(n) => Some(n.to_string()),
        Err(_) => None,
    }
}

proof fn lemma_fixed_digits(n: nat, k: nat)
    ensures
        fixed_digits(n, k).len() == k,
        forall|x: int| 0 <= x < k ==> is_digit(#[trigger] fixed_digits(n, k)[x]),
    decreases k,
{
    if k > 0 {
        lemma_fixed_digits(n / 10, (k - 1) as nat);
        lemma_digit_char(n % 10);
    }
}

proof fn lemma_strip_trailing_zeros(s: Seq<char>)
    requires
        s.len() >= 1,
    ensures
        1 <= strip_trailing_zeros(s).len() <= s.len(),
        strip_trailing_zeros(s) == s.take(strip_trailing_zeros(s).len() as int),
    decreases s.len(),
{
    if s.len() > 1 && s.last() == '0' {
        lemma_strip_trailing_zeros(s.drop_last());
        let r = strip_trailing_zeros(s.drop_last());
        assert(r =~= s.take(r.len() as int));
    } else {
        assert(s =~= s.take(s.len() as int));
    }
}

proof fn lemma_decimal_len(n: nat, k: nat)
    requires
        n < pow10(k),
        k >= 1,
    ensures
        nat_decimal(n).len() <= k,
    decreases k,
{
    if n >= 10 {
        assert(n / 10 < pow10((k - 1) as nat)) by (nonlinear_arith)
            requires
                n < pow10(k),
                pow10(k) == 10 * pow10((k - 1) as nat),
                k >= 1,
        ;
        if k == 1 {
            assert(pow10(1) == 10 * pow10(0));
        } else {
            lemma_decimal_len(n / 10, (k - 1) as nat);
        }
    }
}

pub open spec fn pow10(k: nat) -> nat
    decreases k,
{
    if k == 0 {
        1
    } else {
        10 * pow10((k - 1) as nat)
    }
}

/// The exact decimal text of a Q16.16 value is a plain decimal.
proof fn lemma_q16_plain(q: int)
    requires
        i64::MIN <= q <= i64::MAX,
    ensures
        plain_decimal(q16_decimal(q)),
{
    let a = abs_int(q);
    let ip = nat_decimal(a / 65536);
    let fr = strip_trailing_zeros(fixed_digits(((a % 65536) * 152587890625) as nat, 16));
    lemma_nat_decimal_digits(a / 65536);
    lemma_fixed_digits(((a % 65536) * 152587890625) as nat, 16);
    lemma_strip_trailing_zeros(fixed_digits(((a % 65536) * 152587890625) as nat, 16));
    assert(pow10(15) == 1000000000000000) by {
        reveal_with_fuel(pow10, 16);
    }
    assert(a / 65536 < pow10(15));
    lemma_decimal_len(a / 65536, 15);
    let u = ip + seq!['.'] + fr;
    let t = q16_decimal(q);
    if q < 0 {
        assert(t =~= seq!['-'] + u);
        assert(t.drop_first() =~= u);
    } else {
        assert(t =~= u);
        assert(t.len() == 0 || t[0] != '-') by {
            assert(is_digit(ip[0]));
        }
    }
    let i = ip.len() as int;
    assert(u[i] == '.');
    assert forall|x: int| 0 <= x < u.len() && x != i implies is_digit(#[trigger] u[x]) by {
        if x < i {
            assert(u[x] == ip[x]);
        } else {
            assert(u[x] == fr[x - i - 1]);
            assert(fr[x - i - 1] == fixed_digits(((a % 65536) * 152587890625) as nat, 16)[x - i - 1]);
        }
    }
    lemma_nat_decimal_leading(a / 65536);
    assert(i > 1 ==> u[0] == ip[0]);
    assert(point_at(u, i));
    if q < 0 {
        assert(point_at(t.drop_first(), i));
    } else {
        assert(point_at(t, i));
    }
}

fn push_fixed_digits(v: &mut Vec<char>, n: u64, k: u64)
    ensures
        final(v)@ == old(v)@ + fixed_digits(n as nat, k as nat),
    decreases k,
{
    if k > 0 {
        push_fixed_digits(v, n / 10, k - 1);
        v.push(digit_to_char(n % 10));
    }
}

/// The exact decimal text of `q / 65536`.
pub fn q16_decimal_text(q: i64) -> (s: String)
    ensures
        s@ == q16_decimal(q as int),
{
    let a: u64 = if q < 0 {
        (0i128 - (q as i128)) as u64
    } else {
        q as u64
    };
    assert(a == abs_int(q as int));
    let mut s = String::new();
    if q < 0 {
        string_push(&mut s, '-');
    }
    push_u64_decimal(&mut s, a / 65536);
    string_push(&mut s, '.');
    let frac: u64 = (a % 65536) * 152587890625;
    let mut digits: Vec<char> = Vec::new();
    push_fixed_digits(&mut digits, frac, 16);
    assert(digits@ =~= fixed_digits(frac as nat, 16));
    let ghost full = digits@;
    while digits.len() > 1 && digits[digits.len() - 1] == '0'
        invariant
            strip_trailing_zeros(digits@) == strip_trailing_zeros(full),
        decreases digits.len(),
    {
        let ghost before = digits@;
        digits.pop();
        assert(digits@ =~= before.drop_last());
    }
    assert(strip_trailing_zeros(digits@) == digits@);
    let tail = string_from_chars(digits.as_slice());
    push_str(&mut s, tail.as_str());
    assert(s@ =~= q16_decimal(q as int));
    s
}

/// Canonical text of a number: integers in decimal; a Q16.16 value as the
/// shortest text that reads back as its double (what `serde_json` prints),
/// without a trailing `.0`.
pub open spec fn number_text(n: JsonNumber) -> Option<Seq<char>> {
    match n {
        JsonNumber::I64(i) => Some(int_decimal(i as int)),
        JsonNumber::U64(u) => Some(nat_decimal(u as nat)),
        JsonNumber::Q16(q) => match float_number_text(q16_decimal(q as int)) {
            Some(t) => Some(without_point_zero(t)),
            None => None,
        },
    }
}

/// A number text without a trailing `.0` (an integral value prints as an
/// integer).
pub open spec fn without_point_zero(t: Seq<char>) -> Seq<char> {
    if t.len() >= 2 && t[t.len() - 2] == '.' && t[t.len() - 1] == '0' {
        t.take(t.len() - 2)
    } else {
        t
    }
}

/// The first position `p >= j` in `order` whose key is greater than `k`
/// (or the end).
pub open spec fn first_greater(order: Seq<int>, keys: Seq<Seq<char>>, k: Seq<char>, j: int) -> int
    decreases order.len() - j,
{
    if j < 0 || j >= order.len() {
        order.len() as int
    } else if key_lt(k, keys[order[j]]) {
        j
    } else {
        first_greater(order, keys, k, j + 1)
    }
}

/// The member order of canonical text: indices of the first `n` keys,
/// arranged by a stable insertion by key.
pub open spec fn key_order(keys: Seq<Seq<char>>, n: nat) -> Seq<int>
    decreases n,
{
    if n == 0 {
        seq![]
    } else {
        let o = key_order(keys, (n - 1) as nat);
        let p = first_greater(o, keys, keys[n - 1], 0);
        o.take(p) + seq![(n - 1) as int] + o.skip(p)
    }
}

/// The sort keys of an object's members: their keys, in Normalization
/// Form C, in UTF-16 code-unit order (see `utf16_key`).
pub open spec fn fields_keys(fs: Seq<(Seq<char>, Json)>) -> Seq<Seq<char>> {
    fs.map_values(|p: (Seq<char>, Json)| utf16_key(nfc(p.0)))
}

/// Canonical text of a document; `None` where a number has no text.
pub open spec fn jcs(j: Json) -> Option<Seq<char>>
    decreases j, 0nat,
{
    match j {
        Json::Null => Some(seq!['n', 'u', 'l', 'l']),
        Json::Bool(b) => Some(
            if b {
                seq!['t', 'r', 'u', 'e']
            } else {
                seq!['f', 'a', 'l', 's', 'e']
            },
        ),
        Json::Number(n) => number_text(n),
        Json::Str(s) => Some(json_quoted(s)),
        Json::Array(items) => match jcs_list(items, items.len()) {
            Some(t) => Some(seq!['['] + t + seq![']']),
            None => None,
        },
        Json::Object(fs) => match jcs_members(fs, key_order(fields_keys(fs), fs.len()), fs.len()) {
            Some(t) => Some(seq!['{'] + t + seq!['}']),
            None => None,
        },
    }
}

/// Canonical text of the first `n` items, comma-separated.
pub open spec fn jcs_list(items: Seq<Json>, n: nat) -> Option<Seq<char>>
    decreases items, n,
{
    if n == 0 || n > items.len() {
        Some(seq![])
    } else {
        match (jcs_list(items, (n - 1) as nat), jcs(items[n - 1])) {
            (Some(a), Some(b)) => Some(
                a + (if n == 1 {
                    seq![]
                } else {
                    seq![',']
                }) + b,
            ),
            _ => None,
        }
    }
}

/// Canonical text of the members at `order[0..n]`, comma-separated.
pub open spec fn jcs_members(fs: Seq<(Seq<char>, Json)>, order: Seq<int>, n: nat) -> Option<
    Seq<char>,
>
    decreases fs, n,
{
    if n == 0 || n > order.len() {
        Some(seq![])
    } else if 0 <= order[n - 1] < fs.len() {
        match (jcs_members(fs, order, (n - 1) as nat), jcs(fs[order[n - 1]].1)) {
            (Some(a), Some(b)) => Some(
                a + (if n == 1 {
                    seq![]
                } else {
                    seq![',']
                }) + json_quoted(fs[order[n - 1]].0) + seq![':'] + b,
            ),
            _ => None,
        }
    } else {
        None
    }
}


pub proof fn lemma_first_greater_range(order: Seq<int>, keys: Seq<Seq<char>>, k: Seq<char>, j: int)
    requires
        0 <= j <= order.len(),
    ensures
        j <= first_greater(order, keys, k, j) <= order.len(),
    decreases order.len() - j,
{
    if j < order.len() && !key_lt(k, keys[order[j]]) {
        lemma_first_greater_range(order, keys, k, j + 1);
    }
}

pub proof fn lemma_key_order(keys: Seq<Seq<char>>, n: nat)
    ensures
        key_order(keys, n).len() == n,
        forall|i: int| 0 <= i < n ==> 0 <= #[trigger] key_order(keys, n)[i] < n,
    decreases n,
{
    if n > 0 {
        let o = key_order(keys, (n - 1) as nat);
        lemma_key_order(keys, (n - 1) as nat);
        let p = first_greater(o, keys, keys[n - 1], 0);
        lemma_first_greater_range(o, keys, keys[n - 1], 0);
        let r = o.take(p) + seq![(n - 1) as int] + o.skip(p);
        assert forall|i: int| 0 <= i < n implies 0 <= #[trigger] key_order(keys, n)[i] < n by {
            if i < p {
                assert(r[i] == o[i]);
            } else if i > p {
                assert(r[i] == o[i - 1]);
            }
        }
    }
}

proof fn lemma_list_none(items: Seq<Json>, m: nat, n: nat)
    requires
        jcs_list(items, m) is None,
        m <= n <= items.len(),
    ensures
        jcs_list(items, n) is None,
    decreases n - m,
{
    if m < n {
        lemma_list_none(items, m, (n - 1) as nat);
    }
}

proof fn lemma_members_none(fs: Seq<(Seq<char>, Json)>, order: Seq<int>, m: nat, n: nat)
    requires
        jcs_members(fs, order, m) is None,
        m <= n <= order.len(),
    ensures
        jcs_members(fs, order, n) is None,
    decreases n - m,
{
    if m < n {
        lemma_members_none(fs, order, m, (n - 1) as nat);
    }
}

pub open spec fn order_view(order: Seq<usize>) -> Seq<int> {
    order.map_values(|x: usize| x as int)
}

/// Appends the canonical text of a number.
fn push_number(out: &mut String, n: JsonNumber) -> (r: Result<(), CoreError>)
    ensures
        r is Ok,
        number_text(n) is Some && final(out)@ == old(out)@ + number_text(n).unwrap(),
{
    match n {
        JsonNumber::I64(i) => {
            push_i64_decimal(out, i);
            Ok(())
        },
        JsonNumber::U64(u) => {
            push_u64_decimal(out, u);
            Ok(())
        },
        JsonNumber::Q16(q) => {
            let exact = q16_decimal_text(q);
            proof {
                lemma_q16_plain(q as int);
            }
            match serde_number_text(exact.as_str()) {
                Some(t) => {
                    let cs = chars_of(t.as_str());
                    let k = cs.len();
                    if k >= 2 && cs[k - 2] == '.' && cs[k - 1] == '0' {
                        let head = string_from_chars(&cs.as_slice()[0..k - 2]);
                        assert(cs@.subrange(0, k - 2) =~= t@.take(k - 2));
                        push_str(out, head.as_str());
                    } else {
                        push_str(out, t.as_str());
                    }
                    Ok(())
                },
                None => Err(CoreError::NumberCanonicalizationFailed),
            }
        },
    }
}

pub open spec fn strings_view(s: Seq<String>) -> Seq<Seq<char>> {
    s.map_values(|x: String| x@)
}

/// The stable key order of `keys` (see `key_order`).
#[verifier::loop_isolation(false)]
pub fn stable_key_order(keys: &Vec<String>) -> (order: Vec<usize>)
    ensures
        order_view(order@) == key_order(strings_view(keys@), keys@.len() as nat),
        order@.len() == keys@.len(),
        forall|i: int| 0 <= i < order@.len() ==> #[trigger] order@[i] < keys@.len(),
{
    let ghost kv = strings_view(keys@);
    let n = keys.len();
    let mut order: Vec<usize> = Vec::new();
    for k in 0..n
        invariant
            order@.len() == k,
            order_view(order@) == key_order(kv, k as nat),
            forall|i: int| 0 <= i < order@.len() ==> #[trigger] order@[i] < k,
    {
        let ghost ov = order_view(order@);
        let mut j: usize = 0;
        while j < order.len() && !str_lt(keys[k].as_str(), keys[order[j]].as_str())
            invariant
                j <= order@.len(),
                first_greater(ov, kv, kv[k as int], 0) == first_greater(ov, kv, kv[k as int], j as int),
            decreases order@.len() - j,
        {
            j = j + 1;
        }
        assert(first_greater(ov, kv, kv[k as int], j as int) == j);
        let ghost before = order@;
        order.insert(j, k);
        proof {
            assert(order@ == before.insert(j as int, k));
            assert(order_view(order@) =~= ov.take(j as int) + seq![k as int] + ov.skip(j as int));
        }
    }
    order
}

/// The stable key order of an object's members.
fn member_order(fields: &Vec<(String, JsonValue)>) -> (order: Vec<usize>)
    ensures
        order_view(order@) == key_order(fields_keys(view_fields(fields@)), fields@.len() as nat),
        order@.len() == fields@.len(),
        forall|i: int| 0 <= i < order@.len() ==> #[trigger] order@[i] < fields@.len(),
{
    proof {
        lemma_view_fields(fields@);
    }
    let mut keys: Vec<String> = Vec::new();
    for i in 0..fields.len()
        invariant
            keys@.len() == i,
            forall|j: int| 0 <= j < i ==> #[trigger] keys@[j]@ == utf16_key(nfc(fields@[j].0@)),
    {
        let normal = nfc_text(fields[i].0.as_str());
        keys.push(utf16_sort_key(normal.as_str()));
    }
    assert(strings_view(keys@) =~= fields_keys(view_fields(fields@)));
    stable_key_order(&keys)
}

/// Appends the canonical text of an array's items, between brackets.
#[verifier::loop_isolation(false)]
fn write_items(items: &Vec<JsonValue>, out: &mut String) -> (r: Result<(), CoreError>)
    ensures
        r is Ok,
        match r {
            Ok(_) => jcs(Json::Array(view_items(items@))) is Some && final(out)@ == old(out)@ + jcs(
                Json::Array(view_items(items@)),
            ).unwrap(),
            Err(e) => jcs(Json::Array(view_items(items@))) is None && e is NumberCanonicalizationFailed,
        },
    decreases items,
{
    let ghost o = out@;
    proof {
        lemma_view_items(items@);
    }
    let ghost iv = view_items(items@);
    string_push(out, '[');
    let mut i: usize = 0;
    while i < items.len()
        invariant
            i <= items@.len(),
            jcs_list(iv, i as nat) is Some,
            out@ == o + seq!['['] + jcs_list(iv, i as nat).unwrap(),
        decreases items@.len() - i,
    {
        if i > 0 {
            string_push(out, ',');
        }
        let r = write_jcs(&items[i], out);
        if r.is_err() {
            proof {
                lemma_list_none(iv, (i + 1) as nat, iv.len());
            }
            return Err(CoreError::NumberCanonicalizationFailed);
        }
        i = i + 1;
        assert(out@ =~= o + seq!['['] + jcs_list(iv, i as nat).unwrap());
    }
    string_push(out, ']');
    assert(out@ =~= o + jcs(Json::Array(iv)).unwrap());
    Ok(())
}

/// Appends the canonical text of an object's members, between braces.
#[verifier::loop_isolation(false)]
fn write_members(fields: &Vec<(String, JsonValue)>, out: &mut String) -> (r: Result<(), CoreError>)
    ensures
        r is Ok,
        match r {
            Ok(_) => jcs(Json::Object(view_fields(fields@))) is Some && final(out)@ == old(out)@ + jcs(
                Json::Object(view_fields(fields@)),
            ).unwrap(),
            Err(e) => jcs(Json::Object(view_fields(fields@))) is None && e is NumberCanonicalizationFailed,
        },
    decreases fields,
{
    let ghost o = out@;
    proof {
        lemma_view_fields(fields@);
    }
    let ghost fv = view_fields(fields@);
    let order = member_order(fields);
    let ghost ov = order_view(order@);
    assert(ov.len() == order@.len());
    string_push(out, '{');
    let mut m: usize = 0;
    while m < order.len()
        invariant
            m <= order@.len(),
            jcs_members(fv, ov, m as nat) is Some,
            out@ == o + seq!['{'] + jcs_members(fv, ov, m as nat).unwrap(),
        decreases order@.len() - m,
    {
        let idx = order[m];
        assert(ov[m as int] == idx as int);
        if m > 0 {
            string_push(out, ',');
        }
        push_json_quoted(out, fields[idx].0.as_str());
        string_push(out, ':');
        let r = write_jcs(&fields[idx].1, out);
        if r.is_err() {
            proof {
                lemma_members_none(fv, ov, (m + 1) as nat, ov.len());
            }
            return Err(CoreError::NumberCanonicalizationFailed);
        }
        m = m + 1;
        assert(out@ =~= o + seq!['{'] + jcs_members(fv, ov, m as nat).unwrap());
    }
    string_push(out, '}');
    assert(out@ =~= o + jcs(Json::Object(fv)).unwrap());
    Ok(())
}

/// Appends the canonical text of `v`.
pub fn write_jcs(v: &JsonValue, out: &mut String) -> (r: Result<(), CoreError>)
    ensures
        r is Ok,
        match r {
            Ok(_) => jcs(v@) is Some && final(out)@ == old(out)@ + jcs(v@).unwrap(),
            Err(e) => jcs(v@) is None && e is NumberCanonicalizationFailed,
        },
    decreases v,
{
    let ghost o = out@;
    match v {
        JsonValue::Null => {
            push_str(out, "null");
            proof {
                reveal_strlit("null");
            }
            assert(out@ =~= o + jcs(v@).unwrap());
            Ok(())
        },
        JsonValue::Bool(b) => {
            if *b {
                push_str(out, "true");
                proof {
                    reveal_strlit("true");
                }
            } else {
                push_str(out, "false");
                proof {
                    reveal_strlit("false");
                }
            }
            assert(out@ =~= o + jcs(v@).unwrap());
            Ok(())
        },
        JsonValue::Number(n) => push_number(out, *n),
        JsonValue::Str(s) => {
            push_json_quoted(out, s.as_str());
            Ok(())
        },
        JsonValue::Array(items) => write_items(items, out),
        JsonValue::Object(fields) => write_members(fields, out),
    }
}

/// Canonical bytes of a document: the UTF-8 encoding of its canonical text.
pub open spec fn jcs_bytes(j: Json) -> Option<Seq<u8>> {
    match jcs(j) {
        Some(t) => Some(vstd::utf8::encode_utf8(t)),
        None => None,
    }
}

/// The canonical (JCS) bytes of `value`.
pub fn canonicalize_jcs(value: &JsonValue) -> (r: Result<Vec<u8>, CoreError>)
    ensures
        r is Ok,
        match r {
            Ok(b) => jcs_bytes(value@) == Some(b@),
            Err(e) => jcs_bytes(value@) is None && e is NumberCanonicalizationFailed,
        },
{
    let mut out = String::new();
    match write_jcs(value, &mut out) {
        Ok(_) => {
            assert(out@ =~= jcs(value@).unwrap());
            Ok(out.as_str().as_bytes_vec())
        },
        Err(e) => Err(e),
    }
}

/// The canonical bytes of `value` under the run descriptor's float policy.
/// Numbers of the document model are integers or Q16.16 values, which the
/// Q16.16 round-half-even policy leaves unchanged.
pub fn canonicalize_with_rd(value: &JsonValue, rd: &RunDescriptor) -> (r: Result<Vec<u8>, CoreError>)
    ensures
        r is Ok,
        match r {
            Ok(b) => jcs_bytes(value@) == Some(b@),
            Err(e) => jcs_bytes(value@) is None && e is NumberCanonicalizationFailed,
        },
{
    match rd.canon.float_policy {
        FloatPolicy::Q16_16RoundHalfEven => canonicalize_jcs(value),
    }
}

/// Strings with the same Normalization Form C have the same canonical text.
pub proof fn lemma_canonical_strings_normalized(a: Seq<char>, b: Seq<char>)
    requires
        nfc(a) == nfc(b),
    ensures
        jcs(Json::Str(a)) == jcs(Json::Str(b)),
{
}

/// Whether a document holds no Q16.16 number (every number is an integer).
pub open spec fn float_free(j: Json) -> bool
    decreases j, 0nat,
{
    match j {
        Json::Number(n) => !(n is Q16),
        Json::Array(items) => float_free_list(items, items.len()),
        Json::Object(fs) => float_free_members(fs, fs.len()),
        _ => true,
    }
}

pub open spec fn float_free_list(items: Seq<Json>, n: nat) -> bool
    decreases items, n,
{
    if n == 0 || n > items.len() {
        true
    } else {
        float_free_list(items, (n - 1) as nat) && float_free(items[n - 1])
    }
}

pub open spec fn float_free_members(fs: Seq<(Seq<char>, Json)>, n: nat) -> bool
    decreases fs, n,
{
    if n == 0 || n > fs.len() {
        true
    } else {
        float_free_members(fs, (n - 1) as nat) && float_free(fs[n - 1].1)
    }
}

pub proof fn lemma_float_free_list(items: Seq<Json>, n: nat)
    requires
        n <= items.len(),
    ensures
        float_free_list(items, n) <==> forall|i: int| 0 <= i < n ==> float_free(#[trigger] items[i]),
    decreases n,
{
    if n > 0 {
        lemma_float_free_list(items, (n - 1) as nat);
    }
}

pub proof fn lemma_float_free_members(fs: Seq<(Seq<char>, Json)>, n: nat)
    requires
        n <= fs.len(),
    ensures
        float_free_members(fs, n) <==> forall|i: int| 0 <= i < n ==> float_free(#[trigger] fs[i].1),
    decreases n,
{
    if n > 0 {
        lemma_float_free_members(fs, (n - 1) as nat);
    }
}

/// A document without Q16.16 numbers always has canonical text.
pub proof fn lemma_float_free_jcs(j: Json)
    requires
        float_free(j),
    ensures
        jcs(j) is Some,
    decreases j, 0nat,
{
    match j {
        Json::Array(items) => {
            lemma_float_free_list(items, items.len());
            lemma_list_some(items, items.len());
        },
        Json::Object(fs) => {
            lemma_float_free_members(fs, fs.len());
            let order = key_order(fields_keys(fs), fs.len());
            lemma_key_order(fields_keys(fs), fs.len());
            lemma_members_some(fs, order, fs.len());
        },
        _ => {},
    }
}

proof fn lemma_list_some(items: Seq<Json>, n: nat)
    requires
        n <= items.len(),
        forall|i: int| 0 <= i < items.len() ==> float_free(#[trigger] items[i]),
    ensures
        jcs_list(items, n) is Some,
    decreases items, n,
{
    if n > 0 {
        lemma_list_some(items, (n - 1) as nat);
        lemma_float_free_jcs(items[n - 1]);
    }
}

proof fn lemma_members_some(fs: Seq<(Seq<char>, Json)>, order: Seq<int>, n: nat)
    requires
        n <= order.len(),
        forall|i: int| 0 <= i < order.len() ==> 0 <= #[trigger] order[i] < fs.len(),
        forall|i: int| 0 <= i < fs.len() ==> float_free(#[trigger] fs[i].1),
    ensures
        jcs_members(fs, order, n) is Some,
    decreases fs, n,
{
    if n > 0 {
        lemma_members_some(fs, order, (n - 1) as nat);
        let idx = order[n - 1];
        assert(0 <= idx < fs.len());
        lemma_float_free_jcs(fs[idx].1);
    }
}

/// Setting a member of a float-free document to a float-free value keeps it
/// float-free.
pub proof fn lemma_set_float_free(j: Json, k: Seq<char>, x: Json)
    requires
        assignable(j),
        float_free(j),
        float_free(x),
    ensures
        float_free(json_set(j, k, x)),
{
    match j {
        Json::Object(fs) => {
            let fs2 = fields_set(fs, k, x);
            lemma_float_free_members(fs, fs.len());
            if has_key(fs, k) {
                assert(first_key(fs, k, key_index(fs, k)));
            }
            assert forall|i: int| 0 <= i < fs2.len() implies float_free(#[trigger] fs2[i].1) by {
                if i < fs.len() && fs2[i] == fs[i] {
                }
            }
            lemma_float_free_members(fs2, fs2.len());
        },
        _ => {
            lemma_float_free_members(seq![(k, x)], 1);
        },
    }
}

} // verus!
