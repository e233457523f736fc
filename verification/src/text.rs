//! Text helpers: decimal rendering, JSON string quoting and code-point order.
use vstd::prelude::*;

use crate::normalize::{nfc, nfc_text};

verus! {

broadcast use vstd::string::group_string_axioms;

/// Appends one character to a string (std `String::push`).
#[verifier::external_body]
pub(crate) fn string_push(s: &mut String, c: char)
    ensures
        final(s)@ == old(s)@.push(c),
{
    s.push(c);
}

/// The characters of `s`, in order.
pub fn chars_of(s: &str) -> (v: Vec<char>)
    ensures
        v@ == s@,
{
    let mut v: Vec<char> = Vec::new();
    for c in it: s.chars()
        invariant
            v@ == it.seq().take(it.index() as int),
            it.seq() == s@,
    {
        v.push(c);
    }
    v
}

/// Builds a string from characters.
pub fn string_from_chars(cs: &[char]) -> (s: String)
    ensures
        s@ == cs@,
{
    let mut s = String::new();
    for i in 0..cs.len()
        invariant
            s@ == cs@.take(i as int),
    {
        string_push(&mut s, cs[i]);
        assert(cs@.take(i + 1) == cs@.take(i as int).push(cs@[i as int]));
    }
    assert(cs@.take(cs@.len() as int) == cs@);
    s
}

/// A new string holding the characters of `t`.
pub fn string_of(t: &str) -> (s: String)
    ensures
        s@ == t@,
{
    let mut s = String::new();
    push_str(&mut s, t);
    s
}

/// Appends `t` to `s`.
pub fn push_str(s: &mut String, t: &str)
    ensures
        final(s)@ == old(s)@ + t@,
{
    let cs = chars_of(t);
    let ghost s0 = s@;
    for i in 0..cs.len()
        invariant
            cs@ == t@,
            s@ == s0 + cs@.take(i as int),
    {
        string_push(s, cs[i]);
        assert(cs@.take(i + 1) == cs@.take(i as int).push(cs@[i as int]));
    }
    assert(cs@.take(cs@.len() as int) == cs@);
}

/// The decimal digit for `d < 10`.
pub open spec fn digit_char(d: nat) -> char {
    if d == 0 {
        '0'
    } else if d == 1 {
        '1'
    } else if d == 2 {
        '2'
    } else if d == 3 {
        '3'
    } else if d == 4 {
        '4'
    } else if d == 5 {
        '5'
    } else if d == 6 {
        '6'
    } else if d == 7 {
        '7'
    } else if d == 8 {
        '8'
    } else {
        '9'
    }
}

/// Decimal rendering of a natural number, without leading zeros.
pub open spec fn nat_decimal(n: nat) -> Seq<char>
    decreases n,
{
    if n < 10 {
        seq![digit_char(n)]
    } else {
        nat_decimal(n / 10).push(digit_char(n % 10))
    }
}

/// Whether `c` is one of the digits `0` to `9`.
pub open spec fn is_digit(c: char) -> bool {
    '0' <= c <= '9'
}

pub proof fn lemma_digit_char(d: nat)
    requires
        d < 10,
    ensures
        is_digit(digit_char(d)),
        digit_char(d) as int == '0' as int + d,
{
}

/// A decimal rendering is made of digits, and has at least two of them
/// from ten on.
pub proof fn lemma_nat_decimal_digits(n: nat)
    ensures
        forall|i: int| 0 <= i < nat_decimal(n).len() ==> is_digit(#[trigger] nat_decimal(n)[i]),
        nat_decimal(n).len() >= 1,
        n >= 10 ==> nat_decimal(n).len() >= 2,
    decreases n,
{
    lemma_digit_char(n % 10);
    if n >= 10 {
        lemma_nat_decimal_digits(n / 10);
    }
}

/// A decimal rendering of more than one digit does not begin with `0`.
pub proof fn lemma_nat_decimal_leading(n: nat)
    ensures
        nat_decimal(n).len() > 1 ==> nat_decimal(n)[0] != '0',
    decreases n,
{
    if n >= 10 {
        lemma_nat_decimal_leading(n / 10);
        lemma_nat_decimal_digits(n / 10);
        if n / 10 < 10 {
            lemma_digit_char(n / 10);
        }
        assert(nat_decimal(n)[0] == nat_decimal(n / 10)[0]);
    }
}

/// The number that a string of decimal digits denotes.
pub open spec fn digits_value(s: Seq<char>) -> int
    decreases s.len(),
{
    if s.len() == 0 {
        0
    } else {
        digits_value(s.drop_last()) * 10 + (s.last() as int - '0' as int)
    }
}

/// A decimal rendering reads back as its number: it is made of digits, has
/// no leading zero, and denotes `n`.
pub proof fn lemma_nat_decimal_reads_back(n: nat)
    ensures
        digits_value(nat_decimal(n)) == n,
        forall|i: int| 0 <= i < nat_decimal(n).len() ==> '0' <= #[trigger] nat_decimal(n)[i] <= '9',
        nat_decimal(n).len() > 1 ==> nat_decimal(n)[0] != '0',
    decreases n,
{
    lemma_nat_decimal_digits(n);
    lemma_nat_decimal_leading(n);
    lemma_digit_char(n % 10);
    let d = nat_decimal(n);
    assert(d.last() == digit_char(n % 10));
    assert(d.last() as int - '0' as int == n % 10);
    if n >= 10 {
        lemma_nat_decimal_reads_back(n / 10);
        assert(d.drop_last() == nat_decimal(n / 10));
        assert(digits_value(d) == digits_value(d.drop_last()) * 10 + n % 10);
        assert(n == (n / 10) * 10 + n % 10);
    } else {
        assert(d.drop_last() =~= Seq::<char>::empty());
        assert(digits_value(d) == digits_value(d.drop_last()) * 10 + n % 10);
    }
}

/// Different numbers have different decimal renderings.
pub proof fn lemma_nat_decimal_injective(a: nat, b: nat)
    requires
        nat_decimal(a) == nat_decimal(b),
    ensures
        a == b,
    decreases a,
{
    lemma_nat_decimal_digits(a);
    lemma_nat_decimal_digits(b);
    let da = nat_decimal(a);
    let db = nat_decimal(b);
    lemma_digit_char(a % 10);
    lemma_digit_char(b % 10);
    assert(da.last() == db.last());
    assert(da.last() == digit_char(a % 10));
    assert(db.last() == digit_char(b % 10));
    assert(a % 10 == b % 10);
    if a >= 10 && b >= 10 {
        assert(da.drop_last() == nat_decimal(a / 10));
        assert(db.drop_last() == nat_decimal(b / 10));
        lemma_nat_decimal_injective(a / 10, b / 10);
        assert(a == (a / 10) * 10 + a % 10);
        assert(b == (b / 10) * 10 + b % 10);
    } else if a < 10 && b >= 10 {
        assert(da.len() == 1);
    } else if a >= 10 && b < 10 {
        assert(db.len() == 1);
    }
}

/// A prefix, a decimal number, then text beginning with a non-digit: the
/// number is determined by the whole.
pub proof fn lemma_decimal_then_text(p: Seq<char>, a: nat, x: Seq<char>, b: nat, y: Seq<char>)
    requires
        p + nat_decimal(a) + x == p + nat_decimal(b) + y,
        x.len() == 0 || !is_digit(x[0]),
        y.len() == 0 || !is_digit(y[0]),
    ensures
        a == b,
{
    let da = nat_decimal(a);
    let db = nat_decimal(b);
    let s1 = p + da + x;
    let s2 = p + db + y;
    lemma_nat_decimal_digits(a);
    lemma_nat_decimal_digits(b);
    if da.len() < db.len() {
        assert(s2[(p.len() + da.len()) as int] == db[da.len() as int]);
        if x.len() == 0 {
            assert(s1.len() < s2.len());
        } else {
            assert(s1[(p.len() + da.len()) as int] == x[0]);
        }
    } else if db.len() < da.len() {
        assert(s1[(p.len() + db.len()) as int] == da[db.len() as int]);
        if y.len() == 0 {
            assert(s2.len() < s1.len());
        } else {
            assert(s2[(p.len() + db.len()) as int] == y[0]);
        }
    } else {
        assert forall|i: int| 0 <= i < da.len() implies da[i] == db[i] by {
            assert(s1[p.len() + i] == da[i]);
            assert(s2[p.len() + i] == db[i]);
        }
        assert(da =~= db);
        lemma_nat_decimal_injective(a, b);
    }
}

/// Decimal rendering of an integer, with a leading `-` when negative.
pub open spec fn int_decimal(i: int) -> Seq<char> {
    if i < 0 {
        seq!['-'] + nat_decimal((-i) as nat)
    } else {
        nat_decimal(i as nat)
    }
}

pub fn digit_to_char(d: u64) -> (c: char)
    requires
        d < 10,
    ensures
        c == digit_char(d as nat),
{
    if d == 0 {
        '0'
    } else if d == 1 {
        '1'
    } else if d == 2 {
        '2'
    } else if d == 3 {
        '3'
    } else if d == 4 {
        '4'
    } else if d == 5 {
        '5'
    } else if d == 6 {
        '6'
    } else if d == 7 {
        '7'
    } else if d == 8 {
        '8'
    } else {
        '9'
    }
}

/// Appends the decimal rendering of `n`.
pub fn push_u64_decimal(out: &mut String, n: u64)
    ensures
        final(out)@ == old(out)@ + nat_decimal(n as nat),
    decreases n,
{
    if n >= 10 {
        push_u64_decimal(out, n / 10);
    }
    string_push(out, digit_to_char(n % 10));
}

/// Appends the decimal rendering of `i`.
pub fn push_i64_decimal(out: &mut String, i: i64)
    ensures
        final(out)@ == old(out)@ + int_decimal(i as int),
{
    if i < 0 {
        string_push(out, '-');
        let m: u64 = (0i128 - (i as i128)) as u64;
        push_u64_decimal(out, m);
        assert(out@ == old(out)@ + (seq!['-'] + nat_decimal((-i) as nat)));
    } else {
        push_u64_decimal(out, i as u64);
    }
}

/// Lower-case hexadecimal digit for `d < 16`.
pub open spec fn hex_digit(d: nat) -> char {
    if d < 10 {
        digit_char(d)
    } else if d == 10 {
        'a'
    } else if d == 11 {
        'b'
    } else if d == 12 {
        'c'
    } else if d == 13 {
        'd'
    } else if d == 14 {
        'e'
    } else {
        'f'
    }
}

pub fn hex_digit_char(d: u32) -> (c: char)
    requires
        d < 16,
    ensures
        c == hex_digit(d as nat),
{
    if d < 10 {
        digit_to_char(d as u64)
    } else if d == 10 {
        'a'
    } else if d == 11 {
        'b'
    } else if d == 12 {
        'c'
    } else if d == 13 {
        'd'
    } else if d == 14 {
        'e'
    } else {
        'f'
    }
}

/// How one character appears inside a JSON string literal: `"` and `\` are
/// escaped with a backslash, the controls U+0008, U+0009, U+000A, U+000C and
/// U+000D by their short escapes, other controls below U+0020 as `\u00XX`
/// with lower-case hex digits, and every other character stands as itself.
pub open spec fn escape_char(c: char) -> Seq<char> {
    if c == '"' {
        seq!['\\', '"']
    } else if c == '\\' {
        seq!['\\', '\\']
    } else if c == '\u{08}' {
        seq!['\\', 'b']
    } else if c == '\t' {
        seq!['\\', 't']
    } else if c == '\n' {
        seq!['\\', 'n']
    } else if c == '\u{0C}' {
        seq!['\\', 'f']
    } else if c == '\r' {
        seq!['\\', 'r']
    } else if (c as u32) < 0x20 {
        seq!['\\', 'u', '0', '0', hex_digit(((c as u32) / 16) as nat), hex_digit(((c as u32) % 16) as nat)]
    } else {
        seq![c]
    }
}

/// The escaped body of a JSON string literal.
pub open spec fn escape_seq(s: Seq<char>) -> Seq<char>
    decreases s.len(),
{
    if s.len() == 0 {
        seq![]
    } else {
        escape_seq(s.drop_last()) + escape_char(s.last())
    }
}

/// A JSON string literal for `s`, quotes included: the escaped text of its
/// Normalization Form C.
pub open spec fn json_quoted(s: Seq<char>) -> Seq<char> {
    seq!['"'] + escape_seq(nfc(s)) + seq!['"']
}

/// The value of a hexadecimal digit (either case).
pub open spec fn hex_value(c: char) -> Option<nat> {
    if '0' <= c <= '9' {
        Some((c as u32 - '0' as u32) as nat)
    } else if 'a' <= c <= 'f' {
        Some((c as u32 - 'a' as u32 + 10) as nat)
    } else if 'A' <= c <= 'F' {
        Some((c as u32 - 'A' as u32 + 10) as nat)
    } else {
        None
    }
}

/// Reads the body of a JSON string literal (RFC 8259, section 7): `\"`,
/// `\\`, `\/`, `\b`, `\f`, `\n`, `\r`, `\t` and `\uXXXX` (outside the
/// surrogates) stand for one character each; every other character stands
/// for itself, except `"` and the controls below U+0020, which a body cannot
/// hold. `None` where the text is no string body.
pub open spec fn json_unescape(t: Seq<char>) -> Option<Seq<char>>
    decreases t.len(),
{
    if t.len() == 0 {
        Some(seq![])
    } else if t[0] == '\\' {
        if t.len() < 2 {
            None
        } else {
            let e = t[1];
            let single: Option<char> = if e == '"' {
                Some('"')
            } else if e == '\\' {
                Some('\\')
            } else if e == '/' {
                Some('/')
            } else if e == 'b' {
                Some('\u{08}')
            } else if e == 'f' {
                Some('\u{0C}')
            } else if e == 'n' {
                Some('\n')
            } else if e == 'r' {
                Some('\r')
            } else if e == 't' {
                Some('\t')
            } else {
                None
            };
            match single {
                Some(c) => match json_unescape(t.skip(2)) {
                    Some(r) => Some(seq![c] + r),
                    None => None,
                },
                None => if e == 'u' && t.len() >= 6 && hex_value(t[2]) is Some && hex_value(t[3]) is Some
                    && hex_value(t[4]) is Some && hex_value(t[5]) is Some {
                    let v = hex_value(t[2]).unwrap() * 4096 + hex_value(t[3]).unwrap() * 256 + hex_value(
                        t[4],
                    ).unwrap() * 16 + hex_value(t[5]).unwrap();
                    if 0xD800 <= v <= 0xDFFF {
                        None
                    } else {
                        match json_unescape(t.skip(6)) {
                            Some(r) => Some(seq![(v as u32) as char] + r),
                            None => None,
                        }
                    }
                } else {
                    None
                },
            }
        }
    } else if t[0] == '"' || (t[0] as u32) < 0x20 {
        None
    } else {
        match json_unescape(t.drop_first()) {
            Some(r) => Some(seq![t[0]] + r),
            None => None,
        }
    }
}

proof fn lemma_escape_seq_front(x: Seq<char>)
    requires
        x.len() > 0,
    ensures
        escape_seq(x) == escape_char(x[0]) + escape_seq(x.drop_first()),
    decreases x.len(),
{
    if x.len() == 1 {
        assert(x.drop_last() =~= Seq::<char>::empty());
        assert(x.drop_first() =~= Seq::<char>::empty());
        assert(escape_seq(x.drop_last()) == Seq::<char>::empty());
        assert(escape_seq(x.drop_first()) == Seq::<char>::empty());
        assert(x.last() == x[0]);
        assert(escape_seq(x) =~= escape_char(x[0]) + escape_seq(x.drop_first()));
    } else {
        lemma_escape_seq_front(x.drop_last());
        assert(x.drop_last().drop_first() =~= x.drop_first().drop_last());
        assert(x.drop_first().last() == x.last());
    }
}

proof fn lemma_hex_digit_value(d: nat)
    requires
        d < 16,
    ensures
        hex_value(hex_digit(d)) == Some(d),
        (hex_digit(d) as u32) >= 0x20,
{
    if d < 10 {
        lemma_digit_char(d);
    }
}

/// Reading an escaped character back gives the character.
proof fn lemma_unescape_char(c: char, r: Seq<char>)
    ensures
        json_unescape(escape_char(c) + r) == (match json_unescape(r) {
            Some(u) => Some(seq![c] + u),
            None => None,
        }),
        forall|i: int| 0 <= i < escape_char(c).len() ==> (#[trigger] escape_char(c)[i] as u32) >= 0x20,
{
    let t = escape_char(c) + r;
    if c == '"' || c == '\\' || c == '\u{08}' || c == '\t' || c == '\n' || c == '\u{0C}' || c == '\r' {
        assert(t.skip(2) =~= r);
    } else if (c as u32) < 0x20 {
        let v = c as u32;
        lemma_hex_digit_value((v / 16) as nat);
        lemma_hex_digit_value((v % 16) as nat);
        assert(t.skip(6) =~= r);
        assert(t[2] == '0' && t[3] == '0');
        vstd::utf8::char_u32_cast(c, v);
        assert(hex_value(t[4]) == Some((v / 16) as nat));
        assert(hex_value(t[5]) == Some((v % 16) as nat));
        assert(0 * 4096 + 0 * 256 + (v / 16) as nat * 16 + (v % 16) as nat == v);
    } else {
        assert(t.drop_first() =~= r);
    }
}

/// The body of a canonical string literal reads back as its text: reading
/// `escape_seq(x)` as a JSON string body gives `x`, and it holds no
/// character below U+0020.
pub proof fn lemma_escape_seq_reads_back(x: Seq<char>)
    ensures
        json_unescape(escape_seq(x)) == Some(x),
        forall|i: int| 0 <= i < escape_seq(x).len() ==> (#[trigger] escape_seq(x)[i] as u32) >= 0x20,
    decreases x.len(),
{
    if x.len() == 0 {
        assert(escape_seq(x) =~= Seq::<char>::empty());
    } else {
        lemma_escape_seq_front(x);
        lemma_escape_seq_reads_back(x.drop_first());
        lemma_unescape_char(x[0], escape_seq(x.drop_first()));
        assert(seq![x[0]] + x.drop_first() =~= x);
        let e = escape_char(x[0]);
        let r = escape_seq(x.drop_first());
        assert forall|i: int| 0 <= i < escape_seq(x).len() implies (#[trigger] escape_seq(x)[i] as u32) >= 0x20 by {
            if i < e.len() {
                assert(escape_seq(x)[i] == e[i]);
            } else {
                assert(escape_seq(x)[i] == r[i - e.len()]);
            }
        }
    }
}

/// The canonical literal of a string is `"`, a body and `"`; the body holds
/// no character below U+0020, and read as a JSON string body it gives the
/// string's Normalization Form C.
pub proof fn lemma_json_quoted_reads_back(s: Seq<char>)
    ensures
        json_quoted(s).len() >= 2,
        json_quoted(s)[0] == '"',
        json_quoted(s).last() == '"',
        json_unescape(json_quoted(s).subrange(1, json_quoted(s).len() - 1)) == Some(nfc(s)),
        forall|i: int| 0 <= i < json_quoted(s).len() ==> (#[trigger] json_quoted(s)[i] as u32) >= 0x20,
{
    let b = escape_seq(nfc(s));
    lemma_escape_seq_reads_back(nfc(s));
    let q = json_quoted(s);
    assert(q.subrange(1, q.len() - 1) =~= b);
    assert forall|i: int| 0 <= i < q.len() implies (#[trigger] q[i] as u32) >= 0x20 by {
        if 0 < i < q.len() - 1 {
            assert(q[i] == b[i - 1]);
        }
    }
}

/// Appends the escaped form of one character.
pub fn push_escaped_char(out: &mut String, c: char)
    ensures
        final(out)@ == old(out)@ + escape_char(c),
{
    let ghost o = out@;
    if c == '"' {
        string_push(out, '\\');
        string_push(out, '"');
    } else if c == '\\' {
        string_push(out, '\\');
        string_push(out, '\\');
    } else if c == '\u{08}' {
        string_push(out, '\\');
        string_push(out, 'b');
    } else if c == '\t' {
        string_push(out, '\\');
        string_push(out, 't');
    } else if c == '\n' {
        string_push(out, '\\');
        string_push(out, 'n');
    } else if c == '\u{0C}' {
        string_push(out, '\\');
        string_push(out, 'f');
    } else if c == '\r' {
        string_push(out, '\\');
        string_push(out, 'r');
    } else if (c as u32) < 0x20 {
        let code: u32 = c as u32;
        string_push(out, '\\');
        string_push(out, 'u');
        string_push(out, '0');
        string_push(out, '0');
        string_push(out, hex_digit_char(code / 16));
        string_push(out, hex_digit_char(code % 16));
    } else {
        string_push(out, c);
    }
    assert(out@ =~= o + escape_char(c));
}

/// Appends the JSON string literal for `s`.
pub fn push_json_quoted(out: &mut String, s: &str)
    ensures
        final(out)@ == old(out)@ + json_quoted(s@),
{
    let normal = nfc_text(s);
    let cs = chars_of(normal.as_str());
    let ghost o = out@;
    string_push(out, '"');
    for i in 0..cs.len()
        invariant
            cs@ == nfc(s@),
            out@ == o + seq!['"'] + escape_seq(cs@.take(i as int)),
    {
        let ghost before = out@;
        push_escaped_char(out, cs[i]);
        assert(cs@.take(i + 1).drop_last() == cs@.take(i as int));
    }
    assert(cs@.take(cs@.len() as int) == cs@);
    string_push(out, '"');
    assert(out@ =~= o + json_quoted(s@));
}

/// The character with scalar value `x` (std `char::from_u32`): `Some` for
/// every Unicode scalar value, that is below U+D800 or from U+E000 to
/// U+10FFFF.
#[verifier::external_body]
pub(crate) fn char_from_u32(x: u32) -> (r: Option<char>)
    ensures
        (x < 0xD800 || (0xE000 <= x && x <= 0x10FFFF)) ==> r == Some(x as char),
{
    char::from_u32(x)
}

/// A UTF-16 code unit `u` as a character, in the same order: units below
/// U+D800 stand for themselves, the others move up by 0x800 (past the
/// surrogates).
pub open spec fn unit_char(u: int) -> char {
    (if u < 0xD800 {
        u
    } else {
        u + 0x800
    }) as char
}

/// The UTF-16 code units of a character, as characters (see `unit_char`).
pub open spec fn utf16_sort_chars(c: char) -> Seq<char> {
    let v = c as u32;
    if v < 0x10000 {
        seq![unit_char(v as int)]
    } else {
        seq![unit_char(0xD800 + (v - 0x10000) / 1024), unit_char(0xDC00 + (v - 0x10000) % 1024)]
    }
}

/// A text whose code-point order is the UTF-16 code-unit order of `s`:
/// `key_lt(utf16_key(a), utf16_key(b))` compares `a` and `b` unit by unit.
pub open spec fn utf16_key(s: Seq<char>) -> Seq<char>
    decreases s.len(),
{
    if s.len() == 0 {
        seq![]
    } else {
        utf16_key(s.drop_last()) + utf16_sort_chars(s.last())
    }
}

fn push_unit_char(out: &mut String, u: u32)
    requires
        u <= 0xFFFF,
    ensures
        final(out)@ == old(out)@.push(unit_char(u as int)),
{
    let x: u32 = if u < 0xD800 {
        u
    } else {
        u + 0x800
    };
    match char_from_u32(x) {
        Some(c) => string_push(out, c),
        None => {},
    }
}

/// The UTF-16 sort key of `s` (see `utf16_key`).
pub fn utf16_sort_key(s: &str) -> (r: String)
    ensures
        r@ == utf16_key(s@),
{
    let cs = chars_of(s);
    let mut out = String::new();
    for i in 0..cs.len()
        invariant
            cs@ == s@,
            out@ == utf16_key(cs@.take(i as int)),
    {
        let ghost before = out@;
        let c = cs[i];
        let v = c as u32;
        proof {
            vstd::utf8::char_is_scalar(c);
        }
        assert(v <= 0x10FFFF);
        if v < 0x10000 {
            push_unit_char(&mut out, v);
        } else {
            let w = v - 0x10000;
            push_unit_char(&mut out, 0xD800 + w / 1024);
            push_unit_char(&mut out, 0xDC00 + w % 1024);
        }
        assert(cs@.take(i + 1).drop_last() =~= cs@.take(i as int));
        assert(out@ =~= before + utf16_sort_chars(c));
    }
    assert(cs@.take(cs@.len() as int) =~= cs@);
    out
}

/// Whether two strings hold the same characters.
pub fn str_eq(a: &str, b: &str) -> (r: bool)
    ensures
        r == (a@ == b@),
{
    let ca = chars_of(a);
    let cb = chars_of(b);
    if ca.len() != cb.len() {
        return false;
    }
    for i in 0..ca.len()
        invariant
            ca@ == a@,
            cb@ == b@,
            ca@.len() == cb@.len(),
            forall|j: int| 0 <= j < i ==> ca@[j] == cb@[j],
    {
        if ca[i] != cb[i] {
            return false;
        }
    }
    assert(ca@ =~= cb@);
    true
}

/// Code-point lexicographic order on strings (the order of `str`'s `Ord`,
/// which compares UTF-8 bytes and therefore code points).
pub open spec fn key_lt(a: Seq<char>, b: Seq<char>) -> bool
    decreases a.len(),
{
    if a.len() == 0 {
        b.len() > 0
    } else if b.len() == 0 {
        false
    } else if (a[0] as int) < (b[0] as int) {
        true
    } else if a[0] == b[0] {
        key_lt(a.drop_first(), b.drop_first())
    } else {
        false
    }
}

/// Decides `key_lt` on character vectors, from position `i` on.
fn chars_lt_from(a: &Vec<char>, b: &Vec<char>, i: usize) -> (r: bool)
    requires
        i <= a.len(),
        i <= b.len(),
    ensures
        r == key_lt(a@.skip(i as int), b@.skip(i as int)),
    decreases a.len() - i,
{
    if i == a.len() {
        i < b.len()
    } else if i == b.len() {
        false
    } else {
        let x = a[i];
        let y = b[i];
        assert(a@.skip(i as int)[0] == x);
        assert(b@.skip(i as int)[0] == y);
        if x < y {
            true
        } else if x == y {
            assert(a@.skip(i as int).drop_first() == a@.skip(i + 1));
            assert(b@.skip(i as int).drop_first() == b@.skip(i + 1));
            chars_lt_from(a, b, i + 1)
        } else {
            false
        }
    }
}

/// Whether `a` comes strictly before `b` in code-point order.
pub fn str_lt(a: &str, b: &str) -> (r: bool)
    ensures
        r == key_lt(a@, b@),
{
    let ca = chars_of(a);
    let cb = chars_of(b);
    assert(ca@.skip(0) == ca@);
    assert(cb@.skip(0) == cb@);
    chars_lt_from(&ca, &cb, 0)
}

} // verus!
