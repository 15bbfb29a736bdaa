//! Content fingerprinting: a deterministic lowercase-hex digest of a byte
//! buffer, used to check archive payload integrity.
use sha2::Digest;
use vstd::prelude::*;

verus! {

/// The lowercase hexadecimal SHA-256 digest of a byte sequence.
///
/// The digest is a pure function of the input bytes alone; its value is
/// left abstract here and computed by the `sha2` crate.
pub uninterp spec fn sha256_hex_of(bytes: Seq<u8>) -> Seq<char>;

/// A digit of a lowercase hexadecimal rendering.
pub open spec fn is_lower_hex_digit(c: char) -> bool {
    ('0' as u32 <= c as u32 && c as u32 <= '9' as u32) || ('a' as u32 <= c as u32 && c as u32
        <= 'f' as u32)
}

/// Relies on `sha2::Sha256::digest`: the digest is a deterministic function
/// of the input bytes alone, 32 bytes long, and `generic_array`'s `LowerHex`
/// prints it as two hexadecimal digits per byte (64 characters), each drawn
/// from the lowercase alphabet `0123456789abcdef`.
#[verifier::external_body]
pub fn sha256(input: &[u8]) -> (r: String)
    ensures
        r@ == sha256_hex_of(input@),
        r@.len() == 64,
        forall|i: int| 0 <= i < r@.len() ==> is_lower_hex_digit(#[trigger] r@[i]),
{
    format!("{:x}", sha2::Sha256::digest(input))
}

/// True exactly when `expected` is the digest of `data`.
pub fn digest_matches(data: &[u8], expected: &String) -> (r: bool)
    ensures
        r == (sha256_hex_of(data@) == expected@),
{
    let d = sha256(data);
    d == *expected
}

/// Digest determinism: equal byte sequences always have equal digests.
pub proof fn lemma_digest_deterministic(a: Seq<u8>, b: Seq<u8>)
    requires
        a == b,
    ensures
        sha256_hex_of(a) == sha256_hex_of(b),
{
}

} // verus!
