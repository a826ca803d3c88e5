//! Headers: signed requests to replace the key and the diversifier of a solo
//! machine client.

use crate::any::Any;
use crate::crypto::{
    is_empty_key, key_result_view, public_key_of, PublicKey, PublicKeyError, PublicKeyView,
};
use crate::height::Height;
use crate::sign_bytes::{header_sign_bytes, SignBytes, SignBytesError};
use crate::text::{blank, is_blank};
use crate::validation::BasicValidation;
use crate::wire::{encode_sign_bytes, sign_bytes_encoding};
use vstd::prelude::*;

verus! {

/// A request to move a client on to a new key and diversifier.
#[derive(Clone, Debug, PartialEq, Eq)]
pub struct Header {
    /// The sequence at which the change takes place.
    pub sequence: u64,
    /// Unix time in seconds.
    pub timestamp: u64,
    /// The encoded signature message of the current key.
    pub signature: Vec<u8>,
    /// The new key, in its typed envelope.
    pub new_public_key: Option<Any>,
    pub new_diversifier: String,
}

/// The rule that a header breaks, or what kept its key or its sign bytes from
/// being made.
#[derive(Clone, Debug, PartialEq, Eq)]
pub enum HeaderError {
    EmptyDiversifier,
    EmptyNewPublicKey,
    EncodeError,
    NoneNewPublicKey,
    PublicKeyError(PublicKeyError),
    SignBytesError(SignBytesError),
    ZeroSequenceNumber,
    ZeroTimestamp,
}

/// The new key that a header brings, where the envelope must be there.
pub open spec fn new_public_key_of(header: Header) -> Result<PublicKeyView, HeaderError> {
    match header.new_public_key {
        None => Err(HeaderError::NoneNewPublicKey),
        Some(raw) => match public_key_of(raw@) {
            Ok(key) => Ok(key),
            Err(e) => Err(HeaderError::PublicKeyError(e)),
        },
    }
}

/// The bytes that the signer of a header signs: the encoding of the header's
/// message to sign.
pub open spec fn encoded_header_sign_bytes(header: Header) -> Result<Seq<u8>, HeaderError> {
    match header_sign_bytes(header) {
        Err(e) => Err(HeaderError::SignBytesError(e)),
        Ok(message) => match sign_bytes_encoding(message) {
            Some(bytes) => Ok(bytes),
            None => Err(HeaderError::EncodeError),
        },
    }
}

/// The content of a result that holds bytes.
pub open spec fn bytes_result_view<E>(r: Result<Vec<u8>, E>) -> Result<Seq<u8>, E> {
    match r {
        Ok(bytes) => Ok(bytes@),
        Err(e) => Err(e),
    }
}

impl Header {
    /// The height of the header: its sequence, in revision zero.
    pub fn get_height(&self) -> (r: Height)
        ensures
            r == (Height { revision_number: 0, revision_height: self.sequence }),
    {
        Height::new(0, self.sequence)
    }

    /// The new key. It fails where there is no envelope or the envelope holds
    /// no key.
    pub fn get_public_key(&self) -> (r: Result<PublicKey, HeaderError>)
        ensures
            key_result_view(r) == new_public_key_of(*self),
    {
        match &self.new_public_key {
            None => Err(HeaderError::NoneNewPublicKey),
            Some(raw) => match PublicKey::try_from(raw) {
                Ok(key) => Ok(key),
                Err(e) => Err(HeaderError::PublicKeyError(e)),
            },
        }
    }

    /// The bytes that the signer of the header signs.
    pub fn get_sign_bytes(&self) -> (r: Result<Vec<u8>, HeaderError>)
        ensures
            bytes_result_view(r) == encoded_header_sign_bytes(*self),
    {
        let sign_bytes = match SignBytes::try_from(self) {
            Ok(sign_bytes) => sign_bytes,
            Err(e) => {
                return Err(HeaderError::SignBytesError(e));
            },
        };
        match encode_sign_bytes(&sign_bytes) {
            Ok(bytes) => Ok(bytes),
            Err(_) => Err(HeaderError::EncodeError),
        }
    }
}

impl BasicValidation for Header {
    type Error = HeaderError;

    /// Sequence and timestamp are not zero, the new diversifier is not blank,
    /// and the new key is there, can be read and is not empty.
    open spec fn validation_error(&self) -> Option<HeaderError> {
        if self.sequence == 0 {
            Some(HeaderError::ZeroSequenceNumber)
        } else if self.timestamp == 0 {
            Some(HeaderError::ZeroTimestamp)
        } else if is_blank(self.new_diversifier@) {
            Some(HeaderError::EmptyDiversifier)
        } else {
            match new_public_key_of(*self) {
                Err(e) => Some(e),
                Ok(key) => if is_empty_key(key) {
                    Some(HeaderError::EmptyNewPublicKey)
                } else {
                    None
                },
            }
        }
    }

    fn validate_basic(&self) -> (r: Result<(), HeaderError>) {
        if self.sequence == 0 {
            return Err(HeaderError::ZeroSequenceNumber);
        }
        if self.timestamp == 0 {
            return Err(HeaderError::ZeroTimestamp);
        }
        if blank(self.new_diversifier.as_str()) {
            return Err(HeaderError::EmptyDiversifier);
        }
        match self.get_public_key() {
            Err(e) => Err(e),
            Ok(key) => if key.is_empty() {
                Err(HeaderError::EmptyNewPublicKey)
            } else {
                Ok(())
            },
        }
    }
}

} // verus!
