//! The consensus state of a solo machine: the key that is trusted now, the
//! diversifier, and the time of the last change.

use crate::any::{option_any_view, Any, AnyView};
use crate::client_semantics::IConsensusState;
use crate::crypto::{
    any_result_view, is_empty_key, key_result_view, public_key_of, PublicKey, PublicKeyError,
    PublicKeyView,
};
use crate::wire::{consensus_state_encoding, encode_consensus_state};
use crate::text::{blank, is_blank};
use crate::validation::BasicValidation;
use vstd::prelude::*;

verus! {

/// Tag of a consensus state in a typed envelope.
pub const CONSENSUS_STATE_TYPE_URL: &'static str = "/ibc.lightclients.solomachine.v1.ConsensusState";

/// What a solo machine client trusts at one sequence.
#[derive(Clone, Debug, PartialEq, Eq)]
pub struct ConsensusState {
    /// The public key of the solo machine, in its typed envelope.
    pub public_key: Option<Any>,
    /// Tells apart clients that share one key, so that a signature for one is
    /// none for another.
    pub diversifier: String,
    /// Unix time in seconds.
    pub timestamp: u64,
}

/// The rule that a consensus state breaks, or what kept its key from being
/// read or written.
#[derive(Clone, Debug, PartialEq, Eq)]
pub enum ConsensusStateError {
    EmptyDiversifier,
    EmptyPublicKey,
    EncodeError,
    NonePublicKey,
    PublicKeyError(PublicKeyError),
    ZeroTimestamp,
}

/// The mathematical content of a `ConsensusState`.
pub struct ConsensusStateView {
    pub public_key: Option<AnyView>,
    pub diversifier: Seq<char>,
    pub timestamp: u64,
}

impl View for ConsensusState {
    type V = ConsensusStateView;

    open spec fn view(&self) -> ConsensusStateView {
        ConsensusStateView {
            public_key: option_any_view(self.public_key),
            diversifier: self.diversifier@,
            timestamp: self.timestamp,
        }
    }
}

/// The typed envelope of a consensus state: its tag and its encoding.
pub open spec fn any_of_consensus_state(state: ConsensusState) -> Result<
    AnyView,
    ConsensusStateError,
> {
    match consensus_state_encoding(state@) {
        Some(value) => Ok(AnyView { type_url: CONSENSUS_STATE_TYPE_URL@, value }),
        None => Err(ConsensusStateError::EncodeError),
    }
}

/// The key that an envelope holds, where the envelope must be there.
pub open spec fn required_public_key(public_key: Option<Any>) -> Result<
    PublicKeyView,
    ConsensusStateError,
> {
    match public_key {
        None => Err(ConsensusStateError::NonePublicKey),
        Some(raw) => match public_key_of(raw@) {
            Ok(key) => Ok(key),
            Err(e) => Err(ConsensusStateError::PublicKeyError(e)),
        },
    }
}

impl ConsensusState {
    /// The key of the solo machine. It fails where there is no envelope or
    /// the envelope holds no key.
    pub fn get_public_key(&self) -> (r: Result<PublicKey, ConsensusStateError>)
        ensures
            key_result_view(r) == required_public_key(self.public_key),
    {
        match &self.public_key {
            None => Err(ConsensusStateError::NonePublicKey),
            Some(raw) => match PublicKey::try_from(raw) {
                Ok(key) => Ok(key),
                Err(e) => Err(ConsensusStateError::PublicKeyError(e)),
            },
        }
    }

    /// The typed envelope of the state: its tag and its encoding.
    pub fn to_any(&self) -> (r: Result<Any, ConsensusStateError>)
        ensures
            any_result_view(r) == any_of_consensus_state(*self),
    {
        match encode_consensus_state(self) {
            Ok(value) => Ok(Any { type_url: CONSENSUS_STATE_TYPE_URL.to_owned(), value }),
            Err(_) => Err(ConsensusStateError::EncodeError),
        }
    }

    /// The tag of a consensus state in a typed envelope.
    pub fn type_url() -> (r: &'static str)
        ensures
            r@ == CONSENSUS_STATE_TYPE_URL@,
    {
        CONSENSUS_STATE_TYPE_URL
    }
}

impl IConsensusState for ConsensusState {
    open spec fn timestamp_of(&self) -> u64 {
        self.timestamp
    }

    fn get_timestamp(&self) -> (r: u64) {
        self.timestamp
    }
}

impl BasicValidation for ConsensusState {
    type Error = ConsensusStateError;

    /// The timestamp is not zero, the diversifier is not blank, and the key
    /// is there, can be read and is not empty.
    open spec fn validation_error(&self) -> Option<ConsensusStateError> {
        if self.timestamp == 0 {
            Some(ConsensusStateError::ZeroTimestamp)
        } else if is_blank(self.diversifier@) {
            Some(ConsensusStateError::EmptyDiversifier)
        } else {
            match required_public_key(self.public_key) {
                Err(e) => Some(e),
                Ok(key) => if is_empty_key(key) {
                    Some(ConsensusStateError::EmptyPublicKey)
                } else {
                    None
                },
            }
        }
    }

    fn validate_basic(&self) -> (r: Result<(), ConsensusStateError>) {
        if self.timestamp == 0 {
            return Err(ConsensusStateError::ZeroTimestamp);
        }
        if blank(self.diversifier.as_str()) {
            return Err(ConsensusStateError::EmptyDiversifier);
        }
        match self.get_public_key() {
            Err(e) => Err(e),
            Ok(key) => if key.is_empty() {
                Err(ConsensusStateError::EmptyPublicKey)
            } else {
                Ok(())
            },
        }
    }
}

} // verus!
