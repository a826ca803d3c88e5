//! A signature together with the data that was signed: one half of a
//! misbehaviour report.

use crate::sign_bytes::{data_type_or_default, DataType};
use crate::text::same_bytes;
use crate::validation::BasicValidation;
use vstd::prelude::*;

verus! {

/// A signature, the data signed, its kind, and when it was signed.
#[derive(Clone, Debug, PartialEq, Eq)]
pub struct SignatureAndData {
    /// The encoded signature message.
    pub signature: Vec<u8>,
    /// The kind of `data`, as its number.
    pub data_type: i32,
    pub data: Vec<u8>,
    pub timestamp: u64,
}

/// The rule that a `SignatureAndData` breaks.
#[derive(Clone, Debug, PartialEq, Eq)]
pub enum SignatureAndDataError {
    EmptySignature,
    EmptySignatureData,
    UnspecifierDataType,
    ZeroTimestamp,
}

impl SignatureAndData {
    /// The kind of the data; the unspecified kind where the number names
    /// none.
    pub fn data_type(&self) -> (r: DataType)
        ensures
            r == data_type_or_default(self.data_type),
    {
        match DataType::from_i32(self.data_type) {
            Some(data_type) => data_type,
            None => DataType::UninitializedUnspecified,
        }
    }

    /// Whether two records hold the same signature, kind, data and
    /// timestamp.
    pub open spec fn same_as(&self, other: &SignatureAndData) -> bool {
        &&& self.signature@ == other.signature@
        &&& self.data_type == other.data_type
        &&& self.data@ == other.data@
        &&& self.timestamp == other.timestamp
    }

    /// Whether two records hold the same signature, kind, data and
    /// timestamp.
    pub fn equals(&self, other: &SignatureAndData) -> (b: bool)
        ensures
            b == self.same_as(other),
    {
        same_bytes(self.signature.as_slice(), other.signature.as_slice()) && self.data_type
            == other.data_type && same_bytes(self.data.as_slice(), other.data.as_slice())
            && self.timestamp == other.timestamp
    }
}

impl BasicValidation for SignatureAndData {
    type Error = SignatureAndDataError;

    /// Signature and data are not empty, the kind is specified, and the
    /// timestamp is not zero.
    open spec fn validation_error(&self) -> Option<SignatureAndDataError> {
        if self.signature@.len() == 0 {
            Some(SignatureAndDataError::EmptySignature)
        } else if self.data@.len() == 0 {
            Some(SignatureAndDataError::EmptySignatureData)
        } else if data_type_or_default(self.data_type) == DataType::UninitializedUnspecified {
            Some(SignatureAndDataError::UnspecifierDataType)
        } else if self.timestamp == 0 {
            Some(SignatureAndDataError::ZeroTimestamp)
        } else {
            None
        }
    }

    fn validate_basic(&self) -> (r: Result<(), SignatureAndDataError>) {
        if self.signature.len() == 0 {
            return Err(SignatureAndDataError::EmptySignature);
        }
        if self.data.len() == 0 {
            return Err(SignatureAndDataError::EmptySignatureData);
        }
        match self.data_type() {
            DataType::UninitializedUnspecified => {
                return Err(SignatureAndDataError::UnspecifierDataType);
            },
            _ => {},
        }
        if self.timestamp == 0 {
            return Err(SignatureAndDataError::ZeroTimestamp);
        }
        Ok(())
    }
}

} // verus!
