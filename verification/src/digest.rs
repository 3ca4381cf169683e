//! SHA-256 digests and their hexadecimal form.

use vstd::prelude::*;
use sha2::{Digest, Sha256};

verus! {

/// The SHA-256 digest of a byte string.
pub uninterp spec fn sha256(data: Seq<u8>) -> Seq<u8>;

/// `Sha256::digest` computes the SHA-256 digest of the data, which is
/// 32 bytes long and depends on the data alone.
#[verifier::external_body]
pub(crate) fn sha256_digest(data: &[u8]) -> (r: Vec<u8>)
    ensures
        r@ == sha256(data@),
        r@.len() == 32,
{
    Sha256::digest(data).to_vec()
}

/// The lowercase hexadecimal digit for a value below 16.
pub open spec fn hex_digit(n: int) -> char {
    if n < 10 {
        (0x30 + n) as char
    } else {
        (0x57 + n) as char
    }
}

/// A character is one of `0`-`9`, `a`-`f`.
pub open spec fn is_lower_hex_digit(c: char) -> bool {
    ('0' <= c && c <= '9') || ('a' <= c && c <= 'f')
}

/// The lowercase hexadecimal text of a byte string: two digits per byte,
/// the high half first.
pub open spec fn hex_lower(data: Seq<u8>) -> Seq<char> {
    Seq::new(
        2 * data.len(),
        |i: int|
            if i % 2 == 0 {
                hex_digit(data[i / 2] as int / 16)
            } else {
                hex_digit(data[i / 2] as int % 16)
            },
    )
}

/// `const_hex::encode` writes each byte as two lowercase hexadecimal digits.
#[verifier::external_body]
pub(crate) fn hex_encode(data: &[u8]) -> (r: String)
    ensures
        r@ == hex_lower(data@),
{
    const_hex::encode(data)
}

/// The hexadecimal text of `n` bytes has `2n` characters, each a lowercase
/// hexadecimal digit.
pub proof fn lemma_hex_lower_shape(data: Seq<u8>)
    ensures
        hex_lower(data).len() == 2 * data.len(),
        forall|i: int| 0 <= i < hex_lower(data).len() ==> is_lower_hex_digit(#[trigger] hex_lower(data)[i]),
{
    assert forall|i: int| 0 <= i < hex_lower(data).len() implies is_lower_hex_digit(
        #[trigger] hex_lower(data)[i],
    ) by {
        let b = data[i / 2] as int;
        assert(0 <= b / 16 < 16);
        assert(0 <= b % 16 < 16);
    }
}

/// The hexadecimal SHA-256 digest of a text's UTF-8 bytes.
pub open spec fn sha256_hex(text: Seq<char>) -> Seq<char> {
    hex_lower(sha256(vstd::utf8::encode_utf8(text)))
}

/// Hashes a text with SHA-256 and writes the digest in hexadecimal.
pub fn sha256_hex_of(text: &str) -> (r: String)
    ensures
        r@ == sha256_hex(text@),
        r@.len() == 64,
{
    let digest = sha256_digest(text.as_bytes());
    proof {
        lemma_hex_lower_shape(digest@);
    }
    hex_encode(digest.as_slice())
}

} // verus!
