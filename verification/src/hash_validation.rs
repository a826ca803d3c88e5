//! The length of hashes.

use crate::digest::{sha256_output_size, SHA256_OUTPUT_SIZE};
use vstd::prelude::*;

verus! {

/// The rule that a hash breaks.
#[derive(Clone, Debug, PartialEq, Eq)]
pub enum HashValidationError {
    /// The hash is `actual` bytes long, not `expected`.
    InvalidLength { expected: usize, actual: usize },
}

/// The rule that a hash breaks, or `None`: a hash is empty or as long as a
/// SHA-256 digest.
pub open spec fn hash_error(hash: Seq<u8>) -> Option<HashValidationError> {
    if hash.len() > 0 && hash.len() != SHA256_OUTPUT_SIZE {
        Some(
            HashValidationError::InvalidLength {
                expected: SHA256_OUTPUT_SIZE,
                actual: hash.len() as usize,
            },
        )
    } else {
        None
    }
}

/// Checks that a hash is empty or as long as a SHA-256 digest.
pub fn validate_hash(hash: &[u8]) -> (r: Result<(), HashValidationError>)
    ensures
        r == crate::validation::validation_result(hash_error(hash@)),
{
    let expected: usize = sha256_output_size();
    if hash.len() > 0 && hash.len() != expected {
        return Err(HashValidationError::InvalidLength { expected, actual: hash.len() });
    }
    Ok(())
}

} // verus!
