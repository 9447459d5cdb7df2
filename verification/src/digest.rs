//! Content versions: `sha256:` followed by the lowercase hex digest.

use vstd::prelude::*;

use crate::text::concat2;

verus! {

/// The SHA-256 digest of `data`, as `sha2` computes it.
pub uninterp spec fn sha256_digest(data: Seq<u8>) -> Seq<u8>;

/// The lowercase hex digit for a nibble.
pub open spec fn hex_digit(n: u8) -> char {
    if n < 10 {
        ((n + 48) as u8) as char
    } else {
        ((n + 87) as u8) as char
    }
}

/// Two lowercase hex characters per byte, high nibble first.
pub open spec fn hex_lower(data: Seq<u8>) -> Seq<char>
    decreases data.len(),
{
    if data.len() == 0 {
        Seq::empty()
    } else {
        hex_lower(data.drop_last()) + seq![hex_digit(data.last() / 16), hex_digit(data.last() % 16)]
    }
}

/// The version string of some content.
pub open spec fn content_version(data: Seq<u8>) -> Seq<char> {
    "sha256:"@ + hex_lower(sha256_digest(data))
}

/// `sha2::Sha256::digest`: the digest is a function of the input alone and
/// is 32 bytes long. Which bytes it holds is named, not stated.
#[verifier::external_body]
pub(crate) fn sha256(data: &[u8]) -> (r: Vec<u8>)
    ensures
        r@ == sha256_digest(data@),
        r@.len() == 32,
{
    <sha2::Sha256 as sha2::Digest>::digest(data).to_vec()
}

/// `hex::encode`: two lowercase hex digits per byte, in order.
#[verifier::external_body]
pub(crate) fn hex_encode(data: &[u8]) -> (r: String)
    ensures
        r@ == hex_lower(data@),
{
    hex::encode(data)
}

/// `sha256:` followed by the lowercase hex SHA-256 of `data`.
pub fn version_of(data: &[u8]) -> (r: String)
    ensures
        r@ == content_version(data@),
{
    let digest = sha256(data);
    let hex = hex_encode(digest.as_slice());
    concat2("sha256:", hex.as_str())
}

} // verus!
