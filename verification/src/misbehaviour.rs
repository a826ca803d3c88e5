//! Misbehaviour reports: two signatures of one key over different data at the
//! same sequence.

use crate::height::Height;
use crate::identifier_validation::{
    identifier_error, validate_client_id, IdentifierValidationError, CLIENT_ID_MAX_LENGTH,
    CLIENT_ID_MIN_LENGTH,
};
use crate::sign_bytes::{misbehaviour_sign_bytes, slot_sign_bytes};
use crate::signature_and_data::{SignatureAndData, SignatureAndDataError};
use crate::text::same_bytes;
use crate::validation::BasicValidation;
use crate::wire::{encode_sign_bytes, sign_bytes_encoding};
use vstd::prelude::*;

verus! {

/// Evidence that a solo machine signed two different messages at one
/// sequence.
#[derive(Clone, Debug, PartialEq, Eq)]
pub struct Misbehaviour {
    pub client_id: String,
    pub sequence: u64,
    pub signature_one: Option<SignatureAndData>,
    pub signature_two: Option<SignatureAndData>,
}

/// The rule that a misbehaviour report breaks, or what kept its sign bytes
/// from being made.
#[derive(Clone, Debug, PartialEq, Eq)]
pub enum MisbehaviourError {
    EncodeError,
    EqualSignatureData,
    EqualSignatures,
    InvalidClientId(IdentifierValidationError),
    NoneSignatureOne,
    NoneSignatureTwo,
    SignatureAndDataError(SignatureAndDataError),
    ZeroSequence,
}

/// The bytes that one signature of a report was made over, for a client with
/// the given diversifier.
pub open spec fn encoded_slot_sign_bytes(
    sequence: u64,
    slot: SignatureAndData,
    diversifier: Seq<char>,
) -> Option<Seq<u8>> {
    sign_bytes_encoding(slot_sign_bytes(sequence, slot, diversifier))
}

/// The bytes that the two signatures of a report were made over, for a client
/// with the given diversifier.
pub open spec fn encoded_misbehaviour_sign_bytes(
    misbehaviour: Misbehaviour,
    diversifier: Seq<char>,
) -> Result<(Seq<u8>, Seq<u8>), MisbehaviourError> {
    match (
        encoded_slot_sign_bytes(
            misbehaviour.sequence,
            misbehaviour.signature_one->0,
            diversifier,
        ),
        encoded_slot_sign_bytes(
            misbehaviour.sequence,
            misbehaviour.signature_two->0,
            diversifier,
        ),
    ) {
        (Some(one), Some(two)) => Ok((one, two)),
        _ => Err(MisbehaviourError::EncodeError),
    }
}

/// The content of a result that holds two byte strings.
pub open spec fn bytes_pair_result_view<E>(r: Result<(Vec<u8>, Vec<u8>), E>) -> Result<
    (Seq<u8>, Seq<u8>),
    E,
> {
    match r {
        Ok(pair) => Ok((pair.0@, pair.1@)),
        Err(e) => Err(e),
    }
}

impl Misbehaviour {
    /// The client that the report is about.
    pub fn get_client_id(&self) -> (r: &str)
        ensures
            r@ == self.client_id@,
    {
        self.client_id.as_str()
    }

    /// The height of the report: its sequence, in revision zero.
    pub fn get_height(&self) -> (r: Height)
        ensures
            r == (Height { revision_number: 0, revision_height: self.sequence }),
    {
        Height::new(0, self.sequence)
    }

    /// The bytes that the two signatures were made over, for a client with
    /// the given diversifier.
    pub fn get_sign_bytes(&self, diversifier: &str) -> (r: Result<
        (Vec<u8>, Vec<u8>),
        MisbehaviourError,
    >)
        requires
            self.signature_one is Some,
            self.signature_two is Some,
        ensures
            bytes_pair_result_view(r) == encoded_misbehaviour_sign_bytes(*self, diversifier@),
    {
        let (sign_bytes_one, sign_bytes_two) = misbehaviour_sign_bytes(self, diversifier);
        let bytes_one = match encode_sign_bytes(&sign_bytes_one) {
            Ok(bytes) => bytes,
            Err(_) => {
                return Err(MisbehaviourError::EncodeError);
            },
        };
        let bytes_two = match encode_sign_bytes(&sign_bytes_two) {
            Ok(bytes) => bytes,
            Err(_) => {
                return Err(MisbehaviourError::EncodeError);
            },
        };
        Ok((bytes_one, bytes_two))
    }
}

impl BasicValidation for Misbehaviour {
    type Error = MisbehaviourError;

    /// The client identifier is valid, the sequence is not zero, both
    /// signatures are there and valid, and they differ, as whole records and
    /// in the data they sign.
    open spec fn validation_error(&self) -> Option<MisbehaviourError> {
        if let Some(e) = identifier_error(
            self.client_id@,
            CLIENT_ID_MIN_LENGTH,
            CLIENT_ID_MAX_LENGTH,
        ) {
            Some(MisbehaviourError::InvalidClientId(e))
        } else if self.sequence == 0 {
            Some(MisbehaviourError::ZeroSequence)
        } else if self.signature_one is None {
            Some(MisbehaviourError::NoneSignatureOne)
        } else if let Some(e) = self.signature_one->0.validation_error() {
            Some(MisbehaviourError::SignatureAndDataError(e))
        } else if self.signature_two is None {
            Some(MisbehaviourError::NoneSignatureTwo)
        } else if let Some(e) = self.signature_two->0.validation_error() {
            Some(MisbehaviourError::SignatureAndDataError(e))
        } else if self.signature_one->0.same_as(&self.signature_two->0) {
            Some(MisbehaviourError::EqualSignatures)
        } else if self.signature_one->0.data@ == self.signature_two->0.data@ {
            Some(MisbehaviourError::EqualSignatureData)
        } else {
            None
        }
    }

    fn validate_basic(&self) -> (r: Result<(), MisbehaviourError>) {
        match validate_client_id(self.client_id.as_str()) {
            Ok(()) => {},
            Err(e) => {
                return Err(MisbehaviourError::InvalidClientId(e));
            },
        }
        if self.sequence == 0 {
            return Err(MisbehaviourError::ZeroSequence);
        }
        let signature_one = match &self.signature_one {
            Some(signature) => signature,
            None => {
                return Err(MisbehaviourError::NoneSignatureOne);
            },
        };
        match signature_one.validate_basic() {
            Ok(()) => {},
            Err(e) => {
                return Err(MisbehaviourError::SignatureAndDataError(e));
            },
        }
        let signature_two = match &self.signature_two {
            Some(signature) => signature,
            None => {
                return Err(MisbehaviourError::NoneSignatureTwo);
            },
        };
        match signature_two.validate_basic() {
            Ok(()) => {},
            Err(e) => {
                return Err(MisbehaviourError::SignatureAndDataError(e));
            },
        }
        if signature_one.equals(signature_two) {
            return Err(MisbehaviourError::EqualSignatures);
        }
        if same_bytes(signature_one.data.as_slice(), signature_two.data.as_slice()) {
            return Err(MisbehaviourError::EqualSignatureData);
        }
        Ok(())
    }
}

} // verus!
