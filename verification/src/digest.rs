//! Content digests: `sha256:` followed by the lower-case hex SHA-256 of a
//! document's canonical bytes.
use vstd::prelude::*;

use crate::canon_jcs::{canonicalize_with_rd, jcs_bytes};
use crate::errors::CoreError;
use crate::json::{Json, JsonValue};
use crate::rd::RunDescriptor;
use crate::text::{hex_digit, push_str};

verus! {

/// The SHA-256 hash of `data`.
pub uninterp spec fn sha256_of(data: Seq<u8>) -> Seq<u8>;

/// SHA-256 of `data` with `sha2::Sha256` (`Digest::digest`). The result is
/// named `sha256_of`; its length is the algorithm's 32-byte output size.
#[verifier::external_body]
fn sha256_bytes(data: &[u8]) -> (r: Vec<u8>)
    ensures
        r@ == sha256_of(data@),
        r@.len() == 32,
{
    <sha2::Sha256 as sha2::Digest>::digest(data).to_vec()
}

/// Lower-case hex encoding, two digits per byte, high nibble first.
pub open spec fn hex_lower(data: Seq<u8>) -> Seq<char>
    decreases data.len(),
{
    if data.len() == 0 {
        seq![]
    } else {
        hex_lower(data.drop_last()) + seq![
            hex_digit((data.last() / 16) as nat),
            hex_digit((data.last() % 16) as nat),
        ]
    }
}

/// `hex::encode`: each byte as two lower-case hex digits, high nibble first.
#[verifier::external_body]
fn hex_encode(data: &[u8]) -> (r: String)
    ensures
        r@ == hex_lower(data@),
{
    hex::encode(data)
}

/// The text `sha256:`.
pub open spec fn sha256_prefix() -> Seq<char> {
    seq!['s', 'h', 'a', '2', '5', '6', ':']
}

/// The digest text of a byte string.
pub open spec fn digest_of_bytes(b: Seq<u8>) -> Seq<char> {
    sha256_prefix() + hex_lower(sha256_of(b))
}

/// The digest of a document (`None` where it has no canonical bytes).
pub open spec fn json_digest(j: Json) -> Option<Seq<char>> {
    match jcs_bytes(j) {
        Some(b) => Some(digest_of_bytes(b)),
        None => None,
    }
}

/// The digest of `value`'s canonical bytes under `rd`.
pub fn digest_sha256_jcs(value: &JsonValue, rd: &RunDescriptor) -> (r: Result<String, CoreError>)
    ensures
        r is Ok,
        match r {
            Ok(d) => json_digest(value@) == Some(d@) && digest_shape(d@),
            Err(e) => json_digest(value@) is None && e is NumberCanonicalizationFailed,
        },
{
    let bytes = canonicalize_with_rd(value, rd)?;
    let hash = sha256_bytes(bytes.as_slice());
    let hex = hex_encode(hash.as_slice());
    let mut out = String::new();
    push_str(&mut out, "sha256:");
    push_str(&mut out, hex.as_str());
    proof {
        reveal_strlit("sha256:");
    }
    assert(out@ =~= digest_of_bytes(bytes@));
    proof {
        lemma_digest_shape(bytes@);
    }
    Ok(out)
}

pub open spec fn is_hex_lower_char(c: char) -> bool {
    ('0' <= c <= '9') || ('a' <= c <= 'f')
}

proof fn lemma_hex_lower(data: Seq<u8>)
    ensures
        hex_lower(data).len() == 2 * data.len(),
        forall|i: int| 0 <= i < hex_lower(data).len() ==> is_hex_lower_char(#[trigger] hex_lower(data)[i]),
    decreases data.len(),
{
    if data.len() > 0 {
        lemma_hex_lower(data.drop_last());
    }
}

/// The shape of a digest text: `sha256:` followed by 64 lower-case hex
/// digits, 71 characters in all.
pub open spec fn digest_shape(d: Seq<char>) -> bool {
    &&& d.len() == 71
    &&& d.take(7) == sha256_prefix()
    &&& forall|i: int| 7 <= i < 71 ==> is_hex_lower_char(#[trigger] d[i])
}

proof fn lemma_digest_shape(b: Seq<u8>)
    requires
        sha256_of(b).len() == 32,
    ensures
        digest_shape(digest_of_bytes(b)),
{
    let h = sha256_of(b);
    lemma_hex_lower(h);
    assert(digest_of_bytes(b).take(7) =~= sha256_prefix());
    assert forall|i: int| 7 <= i < 71 implies is_hex_lower_char(#[trigger] digest_of_bytes(b)[i]) by {
        assert(digest_of_bytes(b)[i] == hex_lower(h)[i - 7]);
    }
}

/// A digest text is ASCII: its UTF-8 bytes are its characters, 71 of them.
pub proof fn lemma_digest_ascii(d: Seq<char>)
    requires
        digest_shape(d),
    ensures
        vstd::utf8::is_ascii_chars(d),
        vstd::utf8::encode_utf8(d).len() == 71,
        forall|i: int| 0 <= i < 71 ==> #[trigger] vstd::utf8::encode_utf8(d)[i] == d[i] as u8,
{
    reveal_strlit("sha256:");
    assert forall|i: int| 0 <= i < d.len() implies '\0' <= #[trigger] d[i] <= '\u{7f}' by {
        if i < 7 {
            assert(d[i] == d.take(7)[i]);
        } else {
            assert(is_hex_lower_char(d[i]));
        }
    }
    vstd::utf8::is_ascii_chars_encode_utf8(d);
}

/// Documents with equal canonical bytes have equal digests.
pub proof fn lemma_equal_encodings_equal_digests(a: Json, b: Json)
    requires
        jcs_bytes(a) == jcs_bytes(b),
    ensures
        json_digest(a) == json_digest(b),
{
}

} // verus!
