//! The digest analyzer: SHA-256 over file content, hex-encoded lower-case.

use sha2::Digest;
use vstd::prelude::*;

verus! {

/// The SHA-256 digest of a byte sequence: 32 bytes, a function of the input
/// alone.
pub uninterp spec fn sha256_of(data: Seq<u8>) -> Seq<u8>;

/// The lower-case hex digit for a value below 16.
pub open spec fn hex_digit(n: u8) -> char
    recommends
        n < 16,
{
    if n < 10 {
        (('0' as u8) + n) as char
    } else {
        (('a' as u8) + (n - 10)) as char
    }
}

/// Lower-case hex encoding: two digits per byte, high nibble first.
pub open spec fn hex_lower_of(data: Seq<u8>) -> Seq<char>
    decreases data.len(),
{
    if data.len() == 0 {
        Seq::empty()
    } else {
        seq![hex_digit(data[0] / 16), hex_digit(data[0] % 16)] + hex_lower_of(data.drop_first())
    }
}

/// The hex encoding of a sequence has two characters per byte.
pub proof fn lemma_hex_lower_len(data: Seq<u8>)
    ensures
        hex_lower_of(data).len() == 2 * data.len(),
    decreases data.len(),
{
    if data.len() > 0 {
        lemma_hex_lower_len(data.drop_first());
    }
}

/// The digest string of a file's content: SHA-256, hex-encoded lower-case,
/// no separators.
pub open spec fn digest_of(content: Seq<u8>) -> Seq<char> {
    hex_lower_of(sha256_of(content))
}

/// Relies on sha2::Sha256 through the Digest trait: the one-shot digest is
/// 32 bytes and a function of the input bytes alone.
#[verifier::external_body]
fn sha256_bytes(data: &[u8]) -> (r: Vec<u8>)
    ensures
        r@ == sha256_of(data@),
        r@.len() == 32,
{
    sha2::Sha256::digest(data).to_vec()
}

/// Relies on base16ct::lower::encode_string: each input byte becomes its two
/// lower-case hex digits, high nibble first; panics only when the input is
/// longer than half the address space.
#[verifier::external_body]
fn hex_lower(data: &[u8]) -> (r: String)
    requires
        data@.len() <= usize::MAX / 2,
    ensures
        r@ == hex_lower_of(data@),
{
    base16ct::lower::encode_string(data)
}

/// Streams `content` through SHA-256 and returns the lower-case hex digest:
/// 64 characters, a function of the content alone.
pub fn digest_of_content(content: &[u8]) -> (r: String)
    ensures
        r@ == digest_of(content@),
        r@.len() == 64,
{
    let hash = sha256_bytes(content);
    proof {
        lemma_hex_lower_len(hash@);
    }
    hex_lower(hash.as_slice())
}

/// Law: hashing the same content twice yields the identical digest string;
/// the digest depends on the content alone.
pub proof fn lemma_digest_deterministic(a: Seq<u8>, b: Seq<u8>)
    requires
        a == b,
    ensures
        digest_of(a) == digest_of(b),
{
}

} // verus!
