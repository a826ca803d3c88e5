//! The consensus state of a Tendermint light client, as far as its structural
//! rules go.

use crate::hash_validation::{hash_error, validate_hash, HashValidationError};
use crate::validation::BasicValidation;
use vstd::prelude::*;

verus! {

/// A point in time: seconds since the Unix epoch, and nanoseconds within the
/// second.
#[derive(Clone, Copy, Debug, PartialEq, Eq)]
pub struct Timestamp {
    pub seconds: i64,
    pub nanos: i32,
}

/// The root of a Merkle tree of commitments.
#[derive(Clone, Debug, PartialEq, Eq)]
pub struct MerkleRoot {
    pub hash: Vec<u8>,
}

/// What a Tendermint light client trusts at one height.
#[derive(Clone, Debug, PartialEq, Eq)]
pub struct ConsensusState {
    pub timestamp: Option<Timestamp>,
    /// The commitment root.
    pub root: Option<MerkleRoot>,
    pub next_validators_hash: Vec<u8>,
}

/// The rule that a Tendermint consensus state breaks.
#[derive(Clone, Debug, PartialEq, Eq)]
pub enum ConsensusStateError {
    EmptyRoot,
    HashValidationError(HashValidationError),
    NegativeTimestamp,
    NoneRoot,
    NoneTimestamp,
}

impl BasicValidation for ConsensusState {
    type Error = ConsensusStateError;

    /// The root is there and not empty, the hash of the next validators is
    /// empty or as long as a SHA-256 digest, and the timestamp is there and
    /// after the epoch.
    open spec fn validation_error(&self) -> Option<ConsensusStateError> {
        if self.root is None {
            Some(ConsensusStateError::NoneRoot)
        } else if self.root->0.hash@.len() == 0 {
            Some(ConsensusStateError::EmptyRoot)
        } else if let Some(e) = hash_error(self.next_validators_hash@) {
            Some(ConsensusStateError::HashValidationError(e))
        } else if self.timestamp is None {
            Some(ConsensusStateError::NoneTimestamp)
        } else if self.timestamp->0.seconds <= 0 {
            Some(ConsensusStateError::NegativeTimestamp)
        } else {
            None
        }
    }

    fn validate_basic(&self) -> (r: Result<(), ConsensusStateError>) {
        match &self.root {
            None => {
                return Err(ConsensusStateError::NoneRoot);
            },
            Some(root) => {
                if root.hash.len() == 0 {
                    return Err(ConsensusStateError::EmptyRoot);
                }
            },
        }
        match validate_hash(self.next_validators_hash.as_slice()) {
            Ok(()) => {},
            Err(e) => {
                return Err(ConsensusStateError::HashValidationError(e));
            },
        }
        match &self.timestamp {
            None => Err(ConsensusStateError::NoneTimestamp),
            Some(timestamp) => if timestamp.seconds <= 0 {
                Err(ConsensusStateError::NegativeTimestamp)
            } else {
                Ok(())
            },
        }
    }
}

} // verus!
