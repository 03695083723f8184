//! Content digests: SHA-256 rendered as lowercase hexadecimal.

use sha2::{Digest, Sha256};
use vstd::prelude::*;

verus! {

/// The longest message, in bytes, that SHA-256 is defined on: its length in
/// bits has to fit the 64-bit count that ends the padding.
pub const MAX_MESSAGE_BYTES: u64 = 0x1fff_ffff_ffff_ffff;

/// The SHA-256 digest of `message`, as FIPS 180-4 defines it. Nothing in this
/// crate computes it: the name stands for what the `sha2` crate returns.
pub uninterp spec fn sha256(message: Seq<u8>) -> Seq<u8>;

/// The sixteen digits of lowercase hexadecimal, in order of value.
pub open spec fn lower_hex_alphabet() -> Seq<char> {
    "0123456789abcdef"@
}

/// The two lowercase hexadecimal digits of each byte, high nibble first.
pub open spec fn lower_hex(bytes: Seq<u8>) -> Seq<char> {
    Seq::new(
        2 * bytes.len(),
        |i: int|
            if i % 2 == 0 {
                lower_hex_alphabet()[bytes[i / 2] as int / 16]
            } else {
                lower_hex_alphabet()[bytes[i / 2] as int % 16]
            },
    )
}

/// The digest string of an image: its SHA-256 digest in lowercase hexadecimal.
pub open spec fn image_digest(image_data: Seq<u8>) -> Seq<char> {
    lower_hex(sha256(image_data))
}

/// Whether `c` is one of `0`-`9` or `a`-`f`.
pub open spec fn is_lower_hex_digit(c: char) -> bool {
    ('0' <= c && c <= '9') || ('a' <= c && c <= 'f')
}

/// Whether `text` has the form of a digest string: 64 lowercase hexadecimal
/// digits.
pub open spec fn is_hex_digest(text: Seq<char>) -> bool {
    &&& text.len() == 64
    &&& forall|i: int| 0 <= i < text.len() ==> is_lower_hex_digit(#[trigger] text[i])
}

/// Calls `sha2::Sha256::digest`, the one-shot form of `new`, `update` and
/// `finalize`. Trusted: the 32 bytes that come back are the SHA-256 digest of
/// `message`. The bound keeps the bit count that `sha2` computes for the
/// padding within a `u64`.
#[verifier::external_body]
fn sha256_bytes(message: &[u8]) -> (out: [u8; 32])
    requires
        message@.len() <= MAX_MESSAGE_BYTES,
    ensures
        out@ == sha256(message@),
{
    Sha256::digest(message).into()
}

/// Calls `hex::encode`. Trusted: the string holds, for each byte in turn, the
/// digit of its high nibble and then the digit of its low nibble, taken from
/// `0123456789abcdef`.
#[verifier::external_body]
fn hex_string(bytes: &[u8]) -> (text: String)
    ensures
        text@ == lower_hex(bytes@),
{
    hex::encode(bytes)
}

/// Every character of a lowercase hexadecimal rendering is a lowercase
/// hexadecimal digit, and there are two of them for each byte.
pub proof fn lemma_lower_hex_shape(bytes: Seq<u8>)
    ensures
        lower_hex(bytes).len() == 2 * bytes.len(),
        forall|i: int|
            0 <= i < 2 * bytes.len() ==> is_lower_hex_digit(#[trigger] lower_hex(bytes)[i]),
{
    reveal_strlit("0123456789abcdef");
}

/// A lowercase hexadecimal rendering loses nothing: two byte sequences with
/// the same rendering are the same sequence.
pub proof fn lemma_lower_hex_injective(first: Seq<u8>, second: Seq<u8>)
    requires
        lower_hex(first) == lower_hex(second),
    ensures
        first == second,
{
    reveal_strlit("0123456789abcdef");
    assert(first.len() == second.len()) by {
        assert(lower_hex(second).len() == 2 * second.len());
    }
    assert forall|k: int| 0 <= k < first.len() implies first[k] == second[k] by {
        assert(lower_hex(first)[2 * k] == lower_hex_alphabet()[first[k] as int / 16]);
        assert(lower_hex(second)[2 * k] == lower_hex_alphabet()[second[k] as int / 16]);
        assert(lower_hex(first)[2 * k + 1] == lower_hex_alphabet()[first[k] as int % 16]);
        assert(lower_hex(second)[2 * k + 1] == lower_hex_alphabet()[second[k] as int % 16]);
    }
}

/// Hashes the image with SHA-256 and renders the digest as 64 lowercase
/// hexadecimal characters. The image may be empty; it must be short enough
/// for SHA-256 to be defined on it.
pub fn hash_image(image_data: &Vec<u8>) -> (digest: String)
    requires
        image_data@.len() <= MAX_MESSAGE_BYTES,
    ensures
        digest@ == image_digest(image_data@),
        is_hex_digest(digest@),
{
    let raw = sha256_bytes(image_data.as_slice());
    proof {
        lemma_lower_hex_shape(raw@);
    }
    hex_string(raw.as_slice())
}

} // verus!
