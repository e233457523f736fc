//! Canonical composition (Unicode Normalization Form C) of text: full
//! canonical decomposition, canonical ordering of combining marks, then
//! canonical composition.
use vstd::prelude::*;

use crate::text::{char_from_u32, chars_of, string_from_chars};
use crate::unicode_data::{
    combining_class, combining_class_of, decomposition, decomposition_of, primary_composite,
    primary_composite_of,
};

verus! {

pub open spec fn hangul_base() -> u32 {
    0xAC00
}

/// The combining class of a character.
pub open spec fn ccc(c: char) -> u8 {
    combining_class(c as u32)
}

/// Whether `v` is a precomposed Hangul syllable.
pub open spec fn is_syllable(v: u32) -> bool {
    0xAC00 <= v < 0xAC00 + 11172
}

/// The canonical decomposition of a Hangul syllable: its leading
/// consonant, its vowel, and its trailing consonant if it has one.
pub open spec fn syllable_parts(v: u32) -> Seq<char> {
    let i = v - 0xAC00;
    let l = (0x1100 + i / 588) as char;
    let w = (0x1161 + (i % 588) / 28) as char;
    if i % 28 == 0 {
        seq![l, w]
    } else {
        seq![l, w, (0x11A7 + i % 28) as char]
    }
}

/// The full canonical decomposition of one character.
pub open spec fn decompose_char(c: char) -> Seq<char> {
    let v = c as u32;
    if is_syllable(v) {
        syllable_parts(v)
    } else {
        match decomposition(v) {
            Some(d) => d,
            None => seq![c],
        }
    }
}

/// The full canonical decomposition of a text.
pub open spec fn decompose(s: Seq<char>) -> Seq<char>
    decreases s.len(),
{
    if s.len() == 0 {
        seq![]
    } else {
        decompose(s.drop_last()) + decompose_char(s.last())
    }
}

/// Adds a combining mark to canonically ordered text: it moves before the
/// marks at the end with a greater combining class.
pub open spec fn insert_mark(out: Seq<char>, c: char) -> Seq<char>
    decreases out.len(),
{
    if out.len() > 0 && ccc(out.last()) > ccc(c) {
        insert_mark(out.drop_last(), c).push(out.last())
    } else {
        out.push(c)
    }
}

/// Canonical ordering: each run of combining marks sorted stably by
/// combining class.
pub open spec fn reorder(s: Seq<char>) -> Seq<char>
    decreases s.len(),
{
    if s.len() == 0 {
        seq![]
    } else if ccc(s.last()) == 0 {
        reorder(s.drop_last()).push(s.last())
    } else {
        insert_mark(reorder(s.drop_last()), s.last())
    }
}

/// The composite of `a` and `b`: Hangul syllable composition, or a primary
/// composite.
pub open spec fn compose_pair(a: char, b: char) -> Option<char> {
    let x = a as u32;
    let y = b as u32;
    if 0x1100 <= x < 0x1100 + 19 && 0x1161 <= y < 0x1161 + 21 {
        Some((0xAC00 + ((x - 0x1100) * 21 + (y - 0x1161)) * 28) as char)
    } else if is_syllable(x) && (x - 0xAC00) % 28 == 0 && 0x11A7 < y < 0x11A7 + 28 {
        Some((x + (y - 0x11A7)) as char)
    } else {
        primary_composite(x, y)
    }
}

/// The state of canonical composition: the text so far, the position of
/// its last starter (`-1` when there is none), and the combining class of
/// the last character kept.
pub type ComposeState = (Seq<char>, int, int);

/// One step of canonical composition: `c` joins the last starter when they
/// compose and nothing between them blocks it; otherwise it is kept.
pub open spec fn compose_step(st: ComposeState, c: char) -> ComposeState {
    let (res, sp, last) = st;
    let cc = ccc(c) as int;
    if 0 <= sp < res.len() && compose_pair(res[sp], c) is Some && (last < cc || last == 0) {
        (res.update(sp, compose_pair(res[sp], c).unwrap()), sp, last)
    } else {
        (res.push(c), if cc == 0 {
            res.len() as int
        } else {
            sp
        }, cc)
    }
}

pub open spec fn compose_run(s: Seq<char>) -> ComposeState
    decreases s.len(),
{
    if s.len() == 0 {
        (seq![], -1, 0)
    } else {
        compose_step(compose_run(s.drop_last()), s.last())
    }
}

/// Normalization Form C of a text.
pub closed spec fn nfc(s: Seq<char>) -> Seq<char> {
    compose_run(reorder(decompose(s))).0
}

fn char_ccc(c: char) -> (r: u8)
    ensures
        r == ccc(c),
{
    combining_class_of(c as u32)
}

fn push_decomposed(out: &mut Vec<char>, c: char)
    ensures
        final(out)@ == old(out)@ + decompose_char(c),
{
    let v = c as u32;
    if 0xAC00 <= v && v < 0xAC00 + 11172 {
        let i = v - 0xAC00;
        let l = 0x1100 + i / 588;
        let w = 0x1161 + (i % 588) / 28;
        let t = i % 28;
        match char_from_u32(l) {
            Some(x) => out.push(x),
            None => {},
        }
        match char_from_u32(w) {
            Some(x) => out.push(x),
            None => {},
        }
        if t != 0 {
            match char_from_u32(0x11A7 + t) {
                Some(x) => out.push(x),
                None => {},
            }
        }
    } else {
        match decomposition_of(v) {
            Some(d) => {
                let mut k: usize = 0;
                let ghost o = out@;
                while k < d.len()
                    invariant
                        k <= d@.len(),
                        out@ == o + d@.take(k as int),
                    decreases d@.len() - k,
                {
                    out.push(d[k]);
                    k = k + 1;
                    assert(d@.take(k as int) == d@.take(k - 1).push(d@[k - 1]));
                }
                assert(d@.take(d@.len() as int) == d@);
            },
            None => out.push(c),
        }
    }
}

fn decompose_text(cs: &Vec<char>) -> (r: Vec<char>)
    ensures
        r@ == decompose(cs@),
{
    let mut out: Vec<char> = Vec::new();
    for i in 0..cs.len()
        invariant
            out@ == decompose(cs@.take(i as int)),
    {
        push_decomposed(&mut out, cs[i]);
        assert(cs@.take(i + 1).drop_last() == cs@.take(i as int));
    }
    assert(cs@.take(cs@.len() as int) == cs@);
    out
}

fn reorder_text(cs: &Vec<char>) -> (r: Vec<char>)
    ensures
        r@ == reorder(cs@),
{
    let mut out: Vec<char> = Vec::new();
    for i in 0..cs.len()
        invariant
            out@ == reorder(cs@.take(i as int)),
    {
        let c = cs[i];
        let cc = char_ccc(c);
        assert(cs@.take(i + 1).drop_last() == cs@.take(i as int));
        if cc == 0 {
            out.push(c);
        } else {
            let ghost o = out@;
            let mut k = out.len();
            assert(o.take(k as int) == o);
            assert(o.skip(k as int) =~= Seq::<char>::empty());
            assert(insert_mark(o, c) =~= insert_mark(o.take(k as int), c) + o.skip(k as int));
            while k > 0 && char_ccc(out[k - 1]) > cc
                invariant
                    k <= o.len(),
                    out@ == o,
                    cc == ccc(c),
                    insert_mark(o, c) == insert_mark(o.take(k as int), c) + o.skip(k as int),
                decreases k,
            {
                let ghost t = o.take(k as int);
                assert(t.drop_last() == o.take(k - 1));
                assert(t.last() == o[k - 1]);
                assert(o.skip(k - 1) == seq![o[k - 1]] + o.skip(k as int));
                k = k - 1;
            }
            assert(insert_mark(o.take(k as int), c) == o.take(k as int).push(c));
            out.insert(k, c);
            assert(out@ =~= o.take(k as int).push(c) + o.skip(k as int));
        }
    }
    assert(cs@.take(cs@.len() as int) == cs@);
    out
}

fn compose_chars(a: char, b: char) -> (r: Option<char>)
    ensures
        r == compose_pair(a, b),
{
    let x = a as u32;
    let y = b as u32;
    if 0x1100 <= x && x < 0x1100 + 19 && 0x1161 <= y && y < 0x1161 + 21 {
        char_from_u32(0xAC00 + ((x - 0x1100) * 21 + (y - 0x1161)) * 28)
    } else if 0xAC00 <= x && x < 0xAC00 + 11172 && (x - 0xAC00) % 28 == 0 && 0x11A7 < y && y < 0x11A7 + 28 {
        char_from_u32(x + (y - 0x11A7))
    } else {
        primary_composite_of(x, y)
    }
}

fn compose_text(cs: &Vec<char>) -> (r: Vec<char>)
    ensures
        r@ == compose_run(cs@).0,
{
    let mut res: Vec<char> = Vec::new();
    let mut sp: usize = 0;
    let mut has_sp = false;
    let mut last: u8 = 0;
    for i in 0..cs.len()
        invariant
            compose_run(cs@.take(i as int)) == (res@, if has_sp {
                sp as int
            } else {
                -1
            }, last as int),
            has_sp ==> sp < res@.len(),
    {
        let c = cs[i];
        let cc = char_ccc(c);
        assert(cs@.take(i + 1).drop_last() == cs@.take(i as int));
        let mut joined = false;
        if has_sp && (last < cc || last == 0) {
            match compose_chars(res[sp], c) {
                Some(x) => {
                    res.set(sp, x);
                    joined = true;
                },
                None => {},
            }
        }
        if !joined {
            if cc == 0 {
                sp = res.len();
                has_sp = true;
            }
            res.push(c);
            last = cc;
        }
    }
    assert(cs@.take(cs@.len() as int) == cs@);
    res
}

/// The Normalization Form C of `s`.
pub fn nfc_text(s: &str) -> (r: String)
    ensures
        r@ == nfc(s@),
{
    let cs = chars_of(s);
    let d = decompose_text(&cs);
    let o = reorder_text(&d);
    let c = compose_text(&o);
    string_from_chars(c.as_slice())
}

} // verus!
