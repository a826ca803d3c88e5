//! Hash functions and hexadecimal text, as the address rules use them. The
//! digests are those of `sha2` and `ripemd160`, the text that of `hex`; none
//! of the four functions below is proved.

use sha2::Digest;
use vstd::prelude::*;

verus! {

/// The SHA-256 digest of a byte string.
pub uninterp spec fn sha256(data: Seq<u8>) -> Seq<u8>;

/// The RIPEMD-160 digest of a byte string.
pub uninterp spec fn ripemd160(data: Seq<u8>) -> Seq<u8>;

/// Length of a SHA-256 digest in bytes.
pub const SHA256_OUTPUT_SIZE: usize = 32;

/// Length of a RIPEMD-160 digest in bytes.
pub const RIPEMD160_OUTPUT_SIZE: usize = 20;

/// The sixteen lower-case hexadecimal digits, by value.
pub open spec fn hex_digits() -> Seq<char> {
    seq!['0', '1', '2', '3', '4', '5', '6', '7', '8', '9', 'a', 'b', 'c', 'd', 'e', 'f']
}

/// Lower-case hexadecimal text of a byte string: two digits for each byte,
/// the high half first.
pub open spec fn hex_string(data: Seq<u8>) -> Seq<char> {
    Seq::new(
        2 * data.len(),
        |i: int|
            if i % 2 == 0 {
                hex_digits()[data[i / 2] as int / 16]
            } else {
                hex_digits()[data[i / 2] as int % 16]
            },
    )
}

/// Feeds `data` to a fresh `sha2::Sha256` through `Digest::update` and takes
/// `Digest::finalize`. The digest depends on the data alone and is 32 bytes
/// long (the hasher's `OutputSize`).
#[verifier::external_body]
pub(crate) fn sha256_digest(data: &[u8]) -> (r: Vec<u8>)
    ensures
        r@ == sha256(data@),
        r@.len() == SHA256_OUTPUT_SIZE,
{
    let mut hasher = sha2::Sha256::new();
    hasher.update(data);
    hasher.finalize().to_vec()
}

/// Feeds `data` to a fresh `ripemd160::Ripemd160` through `Digest::update`
/// and takes `Digest::finalize`. The digest depends on the data alone and is
/// 20 bytes long (the hasher's `OutputSize`).
#[verifier::external_body]
pub(crate) fn ripemd160_digest(data: &[u8]) -> (r: Vec<u8>)
    ensures
        r@ == ripemd160(data@),
        r@.len() == RIPEMD160_OUTPUT_SIZE,
{
    let mut hasher = ripemd160::Ripemd160::new();
    hasher.update(data);
    hasher.finalize().to_vec()
}

/// `Digest::output_size` of `sha2::Sha256`: the digest's length, 32 bytes.
#[verifier::external_body]
pub(crate) fn sha256_output_size() -> (n: usize)
    ensures
        n == SHA256_OUTPUT_SIZE,
{
    sha2::Sha256::output_size()
}

/// `hex::encode`: each byte becomes two lower-case hexadecimal digits.
#[verifier::external_body]
pub(crate) fn hex_encode(data: &[u8]) -> (s: String)
    ensures
        s@ == hex_string(data@),
{
    hex::encode(data)
}

} // verus!
