//! The messages that a solo machine signs: an envelope with the sequence, a
//! timestamp, the diversifier, and typed data.

use crate::any::{option_any_view, Any, AnyView};
use crate::header::Header;
use crate::misbehaviour::Misbehaviour;
use crate::signature_and_data::SignatureAndData;
use crate::wire::{encode_header_data, header_data_encoding};
use vstd::prelude::*;

verus! {

/// What kind of data a solo machine signed.
#[derive(Clone, Copy, Debug, PartialEq, Eq)]
pub enum DataType {
    /// No kind was given.
    UninitializedUnspecified,
    ClientState,
    ConsensusState,
    ConnectionState,
    ChannelState,
    PacketCommitment,
    PacketAcknowledgement,
    PacketReceiptAbsence,
    NextSequenceRecv,
    Header,
}

/// The kind with the given number, if there is one.
pub open spec fn data_type_of(value: i32) -> Option<DataType> {
    if value == 0 {
        Some(DataType::UninitializedUnspecified)
    } else if value == 1 {
        Some(DataType::ClientState)
    } else if value == 2 {
        Some(DataType::ConsensusState)
    } else if value == 3 {
        Some(DataType::ConnectionState)
    } else if value == 4 {
        Some(DataType::ChannelState)
    } else if value == 5 {
        Some(DataType::PacketCommitment)
    } else if value == 6 {
        Some(DataType::PacketAcknowledgement)
    } else if value == 7 {
        Some(DataType::PacketReceiptAbsence)
    } else if value == 8 {
        Some(DataType::NextSequenceRecv)
    } else if value == 9 {
        Some(DataType::Header)
    } else {
        None
    }
}

/// The number of a kind.
pub open spec fn data_type_number(data_type: DataType) -> i32 {
    match data_type {
        DataType::UninitializedUnspecified => 0,
        DataType::ClientState => 1,
        DataType::ConsensusState => 2,
        DataType::ConnectionState => 3,
        DataType::ChannelState => 4,
        DataType::PacketCommitment => 5,
        DataType::PacketAcknowledgement => 6,
        DataType::PacketReceiptAbsence => 7,
        DataType::NextSequenceRecv => 8,
        DataType::Header => 9,
    }
}

/// The kind that a number stands for in a message: a number that names no
/// kind stands for the unspecified kind.
pub open spec fn data_type_or_default(value: i32) -> DataType {
    match data_type_of(value) {
        Some(data_type) => data_type,
        None => DataType::UninitializedUnspecified,
    }
}

impl DataType {
    /// The kind with the given number, if there is one.
    pub fn from_i32(value: i32) -> (r: Option<DataType>)
        ensures
            r == data_type_of(value),
    {
        if value == 0 {
            Some(DataType::UninitializedUnspecified)
        } else if value == 1 {
            Some(DataType::ClientState)
        } else if value == 2 {
            Some(DataType::ConsensusState)
        } else if value == 3 {
            Some(DataType::ConnectionState)
        } else if value == 4 {
            Some(DataType::ChannelState)
        } else if value == 5 {
            Some(DataType::PacketCommitment)
        } else if value == 6 {
            Some(DataType::PacketAcknowledgement)
        } else if value == 7 {
            Some(DataType::PacketReceiptAbsence)
        } else if value == 8 {
            Some(DataType::NextSequenceRecv)
        } else if value == 9 {
            Some(DataType::Header)
        } else {
            None
        }
    }

    /// The number of the kind.
    pub fn to_i32(self) -> (r: i32)
        ensures
            r == data_type_number(self),
            data_type_of(r) == Some(self),
    {
        match self {
            DataType::UninitializedUnspecified => 0,
            DataType::ClientState => 1,
            DataType::ConsensusState => 2,
            DataType::ConnectionState => 3,
            DataType::ChannelState => 4,
            DataType::PacketCommitment => 5,
            DataType::PacketAcknowledgement => 6,
            DataType::PacketReceiptAbsence => 7,
            DataType::NextSequenceRecv => 8,
            DataType::Header => 9,
        }
    }
}

/// The data of a header's sign bytes: the key and the diversifier that the
/// header brings in.
#[derive(Clone, Debug, PartialEq, Eq)]
pub struct HeaderData {
    pub new_pub_key: Option<Any>,
    pub new_diversifier: String,
}

/// The mathematical content of a `HeaderData`.
pub struct HeaderDataView {
    pub new_pub_key: Option<AnyView>,
    pub new_diversifier: Seq<char>,
}

impl View for HeaderData {
    type V = HeaderDataView;

    open spec fn view(&self) -> HeaderDataView {
        HeaderDataView {
            new_pub_key: option_any_view(self.new_pub_key),
            new_diversifier: self.new_diversifier@,
        }
    }
}

/// The message that a key signs.
#[derive(Clone, Debug, PartialEq, Eq)]
pub struct SignBytes {
    pub sequence: u64,
    pub timestamp: u64,
    pub diversifier: String,
    /// The kind of `data`, as its number.
    pub data_type: i32,
    pub data: Vec<u8>,
}

/// The mathematical content of a `SignBytes`.
pub struct SignBytesView {
    pub sequence: u64,
    pub timestamp: u64,
    pub diversifier: Seq<char>,
    pub data_type: i32,
    pub data: Seq<u8>,
}

impl View for SignBytes {
    type V = SignBytesView;

    open spec fn view(&self) -> SignBytesView {
        SignBytesView {
            sequence: self.sequence,
            timestamp: self.timestamp,
            diversifier: self.diversifier@,
            data_type: self.data_type,
            data: self.data@,
        }
    }
}

/// Why sign bytes could not be built.
#[derive(Clone, Debug, PartialEq, Eq)]
pub enum SignBytesError {
    /// The encoder could not write the data.
    EncodeError,
}

/// The data that a header's sign bytes carry.
pub open spec fn header_data_of(header: Header) -> HeaderDataView {
    HeaderDataView {
        new_pub_key: option_any_view(header.new_public_key),
        new_diversifier: header.new_diversifier@,
    }
}

/// The message that the signer of a header signs: the header's sequence and
/// timestamp, the new diversifier, and the encoded header data, marked as
/// such.
pub open spec fn header_sign_bytes(header: Header) -> Result<SignBytesView, SignBytesError> {
    match header_data_encoding(header_data_of(header)) {
        Some(data) => Ok(
            SignBytesView {
                sequence: header.sequence,
                timestamp: header.timestamp,
                diversifier: header.new_diversifier@,
                data_type: data_type_number(DataType::Header),
                data,
            },
        ),
        None => Err(SignBytesError::EncodeError),
    }
}

/// The message that one signature of a misbehaviour report was made over:
/// the report's sequence, the client's diversifier, and the signature's own
/// timestamp, kind and data.
pub open spec fn slot_sign_bytes(
    sequence: u64,
    slot: SignatureAndData,
    diversifier: Seq<char>,
) -> SignBytesView {
    SignBytesView {
        sequence,
        timestamp: slot.timestamp,
        diversifier,
        data_type: data_type_number(data_type_or_default(slot.data_type)),
        data: slot.data@,
    }
}

/// The content of a result that holds sign bytes.
pub open spec fn sign_bytes_result_view<E>(r: Result<SignBytes, E>) -> Result<SignBytesView, E> {
    match r {
        Ok(sign_bytes) => Ok(sign_bytes@),
        Err(e) => Err(e),
    }
}

impl HeaderData {
    /// The data of a header's sign bytes.
    pub fn from(header: &Header) -> (r: HeaderData)
        ensures
            r@ == header_data_of(*header),
    {
        let new_pub_key = match &header.new_public_key {
            Some(key) => Some(key.duplicate()),
            None => None,
        };
        HeaderData { new_pub_key, new_diversifier: header.new_diversifier.clone() }
    }
}

impl SignBytes {
    /// The message that the signer of a header signs.
    pub fn try_from(header: &Header) -> (r: Result<SignBytes, SignBytesError>)
        ensures
            sign_bytes_result_view(r) == header_sign_bytes(*header),
    {
        let header_data = HeaderData::from(header);
        match encode_header_data(&header_data) {
            Err(_) => Err(SignBytesError::EncodeError),
            Ok(data) => Ok(
                SignBytes {
                    sequence: header.sequence,
                    timestamp: header.timestamp,
                    diversifier: header.new_diversifier.clone(),
                    data_type: DataType::Header.to_i32(),
                    data,
                },
            ),
        }
    }
}

/// The two messages that the signatures of a misbehaviour report were made
/// over. Both carry the report's sequence and the given diversifier; each
/// carries its own signature's timestamp, kind and data.
pub fn misbehaviour_sign_bytes(misbehaviour: &Misbehaviour, diversifier: &str) -> (r: (
    SignBytes,
    SignBytes,
))
    requires
        misbehaviour.signature_one is Some,
        misbehaviour.signature_two is Some,
    ensures
        r.0@ == slot_sign_bytes(
            misbehaviour.sequence,
            misbehaviour.signature_one->0,
            diversifier@,
        ),
        r.1@ == slot_sign_bytes(
            misbehaviour.sequence,
            misbehaviour.signature_two->0,
            diversifier@,
        ),
{
    let signature_one = misbehaviour.signature_one.as_ref().unwrap();
    let signature_two = misbehaviour.signature_two.as_ref().unwrap();
    let sign_bytes_one = SignBytes {
        sequence: misbehaviour.sequence,
        timestamp: signature_one.timestamp,
        diversifier: diversifier.to_owned(),
        data_type: signature_one.data_type().to_i32(),
        data: signature_one.data.clone(),
    };
    let sign_bytes_two = SignBytes {
        sequence: misbehaviour.sequence,
        timestamp: signature_two.timestamp,
        diversifier: diversifier.to_owned(),
        data_type: signature_two.data_type().to_i32(),
        data: signature_two.data.clone(),
    };
    (sign_bytes_one, sign_bytes_two)
}

} // verus!
