//! The two outside computations behind password and cookie hashes: the
//! SHA-512 digest of the `sha2` crate and the lowercase hex text of the
//! `hex` crate.
use vstd::prelude::*;
use sha2::Digest;

verus! {

/// The SHA-512 digest of `data`. It is left unstated: the library relies
/// only on its being a function of `data`.
pub uninterp spec fn sha512_digest(data: Seq<u8>) -> Seq<u8>;

/// Calls `Digest::digest` of `sha2::Sha512` on `data`. Trusted to return
/// the digest named by [`sha512_digest`] applied to the bytes given;
/// nothing is said of the digest's bytes themselves.
#[verifier::external_body]
pub(crate) fn sha512(data: &[u8]) -> (digest: Vec<u8>)
    ensures
        digest@ == sha512_digest(data@),
{
    sha2::Sha512::digest(data).to_vec()
}

/// The character that stands for a value below 16 in lowercase hex.
pub open spec fn hex_digit(n: int) -> char {
    if n < 10 {
        ((n + 48) as u8) as char
    } else {
        ((n + 87) as u8) as char
    }
}

/// The lowercase hex text of `bytes`: two characters per byte, the high
/// half first.
pub open spec fn hex_lower(bytes: Seq<u8>) -> Seq<char>
    decreases bytes.len(),
{
    if bytes.len() == 0 {
        Seq::empty()
    } else {
        hex_lower(bytes.drop_last()) + seq![
            hex_digit((bytes.last() / 16) as int),
            hex_digit((bytes.last() % 16) as int),
        ]
    }
}

/// Calls `hex::encode` on `data`. Trusted to return the lowercase hex text
/// of the bytes, high half of each byte first, as its source writes it
/// (the table `0123456789abcdef`).
#[verifier::external_body]
pub(crate) fn hex_encode(data: &[u8]) -> (text: String)
    ensures
        text@ == hex_lower(data@),
{
    hex::encode(data)
}

} // verus!
