//! The binary encoding of the messages that the client reads and signs. The
//! encoder and decoder are those of `prost`, applied to the message types of
//! `cosmos_sdk_proto` and `ibc_proto`.
//!
//! Nothing here is proved. Each function below builds the outside message,
//! makes one call, and moves the fields of what comes back. Its contract says
//! that the outcome is a function of the content of its argument, and gives
//! that function a name; `None` stands for the call's failure. What the bytes
//! are is left to the encoder.

use crate::any::Any;
use crate::bit_array::CompactBitArray;
use crate::client_state::{ClientState, ClientStateView};
use crate::consensus_state::{ConsensusState, ConsensusStateView};
use crate::crypto::{Ed25519PubKey, MultisigPubKey, MultisigPubKeyView, Secp256k1PubKey};
use crate::sign_bytes::{HeaderData, HeaderDataView, SignBytes, SignBytesView};
use crate::signature_data::{Signature, SignatureData, SignatureView};
use ibc_proto::cosmos::tx::signing::v1beta1::signature_descriptor::data::Sum;
use prost::Message;
use vstd::prelude::*;

verus! {

/// The error with which `prost` refuses bytes that are no valid message.
#[verifier::external_type_specification]
#[verifier::external_body]
pub struct ExDecodeError(prost::DecodeError);

/// The error with which `prost` reports a buffer too small for a message.
#[verifier::external_type_specification]
#[verifier::external_body]
pub struct ExEncodeError(prost::EncodeError);

/// A decoded signature message, before its fields are moved into a
/// `Signature`.
#[verifier::external_type_specification]
#[verifier::external_body]
pub struct ExSignatureMessage(ibc_proto::cosmos::tx::signing::v1beta1::signature_descriptor::Data);

/// The key bytes that `bytes` decode to as a secp256k1 key message, or `None`
/// where they are no such message.
pub uninterp spec fn secp256k1_pub_key_decoding(bytes: Seq<u8>) -> Option<Seq<u8>>;

/// The key bytes that `bytes` decode to as an Ed25519 key message, or `None`
/// where they are no such message.
pub uninterp spec fn ed25519_pub_key_decoding(bytes: Seq<u8>) -> Option<Seq<u8>>;

/// The multisig key that `bytes` decode to, or `None` where they are no such
/// message.
pub uninterp spec fn multisig_pub_key_decoding(bytes: Seq<u8>) -> Option<MultisigPubKeyView>;

/// The encoding of a secp256k1 key message with the given key bytes, or
/// `None` where the encoder reports that its buffer cannot take it.
pub uninterp spec fn secp256k1_pub_key_encoding(key: Seq<u8>) -> Option<Seq<u8>>;

/// The encoding of an Ed25519 key message with the given key bytes, or `None`
/// where the encoder reports that its buffer cannot take it.
pub uninterp spec fn ed25519_pub_key_encoding(key: Seq<u8>) -> Option<Seq<u8>>;

/// The encoding of a multisig key message, or `None` where the encoder
/// reports that its buffer cannot take it.
pub uninterp spec fn multisig_pub_key_encoding(key: MultisigPubKeyView) -> Option<Seq<u8>>;

/// The signature message that `bytes` decode to, or `None` where they are no
/// such message.
pub uninterp spec fn signature_decoding(bytes: Seq<u8>) -> Option<SignatureView>;

/// The encoding of a header's data, or `None` where the encoder reports that
/// its buffer cannot take it.
pub uninterp spec fn header_data_encoding(data: HeaderDataView) -> Option<Seq<u8>>;

/// The encoding of a message to sign, or `None` where the encoder reports
/// that its buffer cannot take it.
pub uninterp spec fn sign_bytes_encoding(sign_bytes: SignBytesView) -> Option<Seq<u8>>;

/// The encoding of a consensus state, or `None` where the encoder reports
/// that its buffer cannot take it.
pub uninterp spec fn consensus_state_encoding(state: ConsensusStateView) -> Option<Seq<u8>>;

/// The encoding of a client state, or `None` where the encoder reports that
/// its buffer cannot take it.
pub uninterp spec fn client_state_encoding(state: ClientStateView) -> Option<Seq<u8>>;

/// `Message::decode` of `cosmos_sdk_proto`'s secp256k1 `PubKey`. What is
/// decoded depends on the bytes alone.
#[verifier::external_body]
pub(crate) fn decode_secp256k1_pub_key(bytes: &[u8]) -> (r: Result<
    Secp256k1PubKey,
    prost::DecodeError,
>)
    ensures
        match r {
            Ok(key) => secp256k1_pub_key_decoding(bytes@) == Some(key@),
            Err(_) => secp256k1_pub_key_decoding(bytes@) is None,
        },
{
    let decoded = cosmos_sdk_proto::cosmos::crypto::secp256k1::PubKey::decode(bytes)?;
    Ok(Secp256k1PubKey { key: decoded.key })
}

/// `Message::decode` of `cosmos_sdk_proto`'s Ed25519 `PubKey`. What is
/// decoded depends on the bytes alone.
#[verifier::external_body]
pub(crate) fn decode_ed25519_pub_key(bytes: &[u8]) -> (r: Result<
    Ed25519PubKey,
    prost::DecodeError,
>)
    ensures
        match r {
            Ok(key) => ed25519_pub_key_decoding(bytes@) == Some(key@),
            Err(_) => ed25519_pub_key_decoding(bytes@) is None,
        },
{
    let decoded = cosmos_sdk_proto::cosmos::crypto::ed25519::PubKey::decode(bytes)?;
    Ok(Ed25519PubKey { key: decoded.key })
}

/// `Message::decode` of `cosmos_sdk_proto`'s `LegacyAminoPubKey`. What is
/// decoded depends on the bytes alone.
#[verifier::external_body]
pub(crate) fn decode_multisig_pub_key(bytes: &[u8]) -> (r: Result<
    MultisigPubKey,
    prost::DecodeError,
>)
    ensures
        match r {
            Ok(key) => multisig_pub_key_decoding(bytes@) == Some(key@),
            Err(_) => multisig_pub_key_decoding(bytes@) is None,
        },
{
    let decoded = cosmos_sdk_proto::cosmos::crypto::multisig::LegacyAminoPubKey::decode(bytes)?;
    Ok(
        MultisigPubKey {
            threshold: decoded.threshold,
            public_keys: decoded.public_keys.into_iter().map(|k| Any::new(k.type_url, k.value)).collect(),
        },
    )
}

/// `Message::encode` of `cosmos_sdk_proto`'s secp256k1 `PubKey` into an empty
/// buffer. What is written depends on the key bytes alone.
#[verifier::external_body]
pub(crate) fn encode_secp256k1_pub_key(key: &Secp256k1PubKey) -> (r: Result<
    Vec<u8>,
    prost::EncodeError,
>)
    ensures
        match r {
            Ok(bytes) => secp256k1_pub_key_encoding(key@) == Some(bytes@),
            Err(_) => secp256k1_pub_key_encoding(key@) is None,
        },
{
    let message = cosmos_sdk_proto::cosmos::crypto::secp256k1::PubKey { key: key.key.clone() };
    let mut bytes = Vec::new();
    message.encode(&mut bytes)?;
    Ok(bytes)
}

/// `Message::encode` of `cosmos_sdk_proto`'s Ed25519 `PubKey` into an empty
/// buffer. What is written depends on the key bytes alone.
#[verifier::external_body]
pub(crate) fn encode_ed25519_pub_key(key: &Ed25519PubKey) -> (r: Result<
    Vec<u8>,
    prost::EncodeError,
>)
    ensures
        match r {
            Ok(bytes) => ed25519_pub_key_encoding(key@) == Some(bytes@),
            Err(_) => ed25519_pub_key_encoding(key@) is None,
        },
{
    let message = cosmos_sdk_proto::cosmos::crypto::ed25519::PubKey { key: key.key.clone() };
    let mut bytes = Vec::new();
    message.encode(&mut bytes)?;
    Ok(bytes)
}

/// `Message::encode` of `cosmos_sdk_proto`'s `LegacyAminoPubKey` into an empty
/// buffer. What is written depends on the threshold and the member keys alone.
#[verifier::external_body]
pub(crate) fn encode_multisig_pub_key(key: &MultisigPubKey) -> (r: Result<
    Vec<u8>,
    prost::EncodeError,
>)
    ensures
        match r {
            Ok(bytes) => multisig_pub_key_encoding(key@) == Some(bytes@),
            Err(_) => multisig_pub_key_encoding(key@) is None,
        },
{
    let message = cosmos_sdk_proto::cosmos::crypto::multisig::LegacyAminoPubKey {
        threshold: key.threshold,
        public_keys: key.public_keys.iter().map(
            |k| prost_types::Any { type_url: k.type_url.clone(), value: k.value.clone() },
        ).collect(),
    };
    let mut bytes = Vec::new();
    message.encode(&mut bytes)?;
    Ok(bytes)
}

/// Moves the fields of a decoded signature message into a `Signature`, level
/// by level.
#[verifier::external_body]
fn signature_of(
    message: ibc_proto::cosmos::tx::signing::v1beta1::signature_descriptor::Data,
) -> Signature {
    let sum = match message.sum {
        None => None,
        Some(Sum::Single(s)) => Some(SignatureData::single(s.mode, s.signature)),
        Some(Sum::Multi(m)) => Some(
            SignatureData::multi(
                m.bitarray.map(|b| CompactBitArray { extra_bits_stored: b.extra_bits_stored, elems: b.elems }),
                m.signatures.into_iter().map(signature_of).collect(),
            ),
        ),
    };
    Signature { sum }
}

/// `Message::decode` of `ibc_proto`'s `signature_descriptor::Data`. What is
/// decoded depends on the bytes alone.
#[verifier::external_body]
pub(crate) fn decode_signature(bytes: &[u8]) -> (r: Result<Signature, prost::DecodeError>)
    ensures
        match r {
            Ok(signature) => signature_decoding(bytes@) == Some(signature@),
            Err(_) => signature_decoding(bytes@) is None,
        },
{
    let decoded = ibc_proto::cosmos::tx::signing::v1beta1::signature_descriptor::Data::decode(
        bytes,
    )?;
    Ok(signature_of(decoded))
}

/// `Message::encode` of `ibc_proto`'s `HeaderData` into an empty buffer. What
/// is written depends on the key envelope and the diversifier alone.
#[verifier::external_body]
pub(crate) fn encode_header_data(data: &HeaderData) -> (r: Result<Vec<u8>, prost::EncodeError>)
    ensures
        match r {
            Ok(bytes) => header_data_encoding(data@) == Some(bytes@),
            Err(_) => header_data_encoding(data@) is None,
        },
{
    let message = ibc_proto::ibc::lightclients::solomachine::v1::HeaderData {
        new_pub_key: data.new_pub_key.as_ref().map(
            |k| prost_types::Any { type_url: k.type_url.clone(), value: k.value.clone() },
        ),
        new_diversifier: data.new_diversifier.clone(),
    };
    let mut bytes = Vec::new();
    message.encode(&mut bytes)?;
    Ok(bytes)
}

/// `Message::encode` of `ibc_proto`'s `SignBytes` into an empty buffer. What
/// is written depends on the five fields alone.
#[verifier::external_body]
pub(crate) fn encode_sign_bytes(sign_bytes: &SignBytes) -> (r: Result<
    Vec<u8>,
    prost::EncodeError,
>)
    ensures
        match r {
            Ok(bytes) => sign_bytes_encoding(sign_bytes@) == Some(bytes@),
            Err(_) => sign_bytes_encoding(sign_bytes@) is None,
        },
{
    let message = ibc_proto::ibc::lightclients::solomachine::v1::SignBytes {
        sequence: sign_bytes.sequence,
        timestamp: sign_bytes.timestamp,
        diversifier: sign_bytes.diversifier.clone(),
        data_type: sign_bytes.data_type,
        data: sign_bytes.data.clone(),
    };
    let mut bytes = Vec::new();
    message.encode(&mut bytes)?;
    Ok(bytes)
}

/// `Message::encode` of `ibc_proto`'s solo machine `ConsensusState` into an
/// empty buffer. What is written depends on the three fields alone.
#[verifier::external_body]
pub(crate) fn encode_consensus_state(state: &ConsensusState) -> (r: Result<
    Vec<u8>,
    prost::EncodeError,
>)
    ensures
        match r {
            Ok(bytes) => consensus_state_encoding(state@) == Some(bytes@),
            Err(_) => consensus_state_encoding(state@) is None,
        },
{
    let message = ibc_proto::ibc::lightclients::solomachine::v1::ConsensusState {
        public_key: state.public_key.as_ref().map(
            |k| prost_types::Any { type_url: k.type_url.clone(), value: k.value.clone() },
        ),
        diversifier: state.diversifier.clone(),
        timestamp: state.timestamp,
    };
    let mut bytes = Vec::new();
    message.encode(&mut bytes)?;
    Ok(bytes)
}

/// `Message::encode` of `ibc_proto`'s solo machine `ClientState` into an empty
/// buffer. What is written depends on the fields alone, those of the
/// consensus state among them.
#[verifier::external_body]
pub(crate) fn encode_client_state(state: &ClientState) -> (r: Result<Vec<u8>, prost::EncodeError>)
    ensures
        match r {
            Ok(bytes) => client_state_encoding(state@) == Some(bytes@),
            Err(_) => client_state_encoding(state@) is None,
        },
{
    let consensus_state = state.consensus_state.as_ref().map(
        |c| ibc_proto::ibc::lightclients::solomachine::v1::ConsensusState {
            public_key: c.public_key.as_ref().map(|k| prost_types::Any { type_url: k.type_url.clone(), value: k.value.clone() }),
            diversifier: c.diversifier.clone(),
            timestamp: c.timestamp,
        },
    );
    let message = ibc_proto::ibc::lightclients::solomachine::v1::ClientState {
        sequence: state.sequence, frozen_sequence: state.frozen_sequence, consensus_state,
        allow_update_after_proposal: state.allow_update_after_proposal,
    };
    let mut bytes = Vec::new();
    message.encode(&mut bytes)?;
    Ok(bytes)
}

} // verus!
