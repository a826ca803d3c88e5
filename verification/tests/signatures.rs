use k256::ecdsa::signature::Signer;
use k256::elliptic_curve::sec1::ToEncodedPoint;
use solo_machine::any::Any;
use solo_machine::bit_array::CompactBitArray;
use solo_machine::crypto::{
    verify_signature, Ed25519PubKey, MultisigPubKey, PublicKey, PublicKeyError, Secp256k1PubKey,
    SignatureDataFault, SignatureVerificationError,
};
use solo_machine::signature_data::{
    MultiSignatureData, Signature, SignatureData, SingleSignatureData,
};

const MESSAGE: &[u8] = b"a message that is signed";

fn secp256k1_signer(seed: u8) -> k256::ecdsa::SigningKey {
    k256::ecdsa::SigningKey::from_bytes(&[seed; 32]).unwrap()
}

fn secp256k1_key(seed: u8) -> Secp256k1PubKey {
    Secp256k1PubKey { key: secp256k1_signer(seed).verifying_key().to_bytes().to_vec() }
}

fn secp256k1_sign(seed: u8, msg: &[u8]) -> Vec<u8> {
    let signature: k256::ecdsa::Signature = secp256k1_signer(seed).sign(msg);
    signature.as_ref().to_vec()
}

fn ed25519_signer(seed: u8) -> ed25519_dalek::Keypair {
    let secret = ed25519_dalek::SecretKey::from_bytes(&[seed; 32]).unwrap();
    let public = ed25519_dalek::PublicKey::from(&secret);
    ed25519_dalek::Keypair { secret, public }
}

fn ed25519_key(seed: u8) -> Ed25519PubKey {
    Ed25519PubKey { key: ed25519_signer(seed).public.as_bytes().to_vec() }
}

fn ed25519_sign(seed: u8, msg: &[u8]) -> Vec<u8> {
    ed25519_signer(seed).sign(msg).to_bytes().to_vec()
}

fn single(signature: Vec<u8>) -> SignatureData {
    SignatureData::Single(SingleSignatureData { mode: 1, signature })
}

fn member(signature: Vec<u8>) -> Signature {
    Signature { sum: Some(single(signature)) }
}

fn bit_array(bits: &[bool]) -> CompactBitArray {
    let mut array = CompactBitArray::new(bits.len());
    for (i, bit) in bits.iter().enumerate() {
        array.set(i, *bit);
    }
    array
}

fn multi(bits: &[bool], signatures: Vec<Signature>) -> MultiSignatureData {
    MultiSignatureData { bitarray: Some(bit_array(bits)), signatures }
}

/// Three member keys: secp256k1 (seed 1), Ed25519 (seed 2), secp256k1 (seed 3).
fn three_keys(threshold: u32) -> MultisigPubKey {
    MultisigPubKey {
        threshold,
        public_keys: vec![
            PublicKey::Secp256k1(secp256k1_key(1)).to_any().unwrap(),
            PublicKey::Ed25519(ed25519_key(2)).to_any().unwrap(),
            PublicKey::Secp256k1(secp256k1_key(3)).to_any().unwrap(),
        ],
    }
}

fn invalid_data(fault: SignatureDataFault) -> Result<(), SignatureVerificationError> {
    Err(SignatureVerificationError::InvalidSignatureData(fault))
}

#[test]
fn secp256k1_signature_is_accepted() {
    let key = secp256k1_key(1);
    let signature = secp256k1_sign(1, MESSAGE);
    assert_eq!(signature.len(), 64);
    assert_eq!(key.verify_signature(MESSAGE, &signature), Ok(()));
    assert_eq!(verify_signature(&PublicKey::Secp256k1(key), MESSAGE, &single(signature)), Ok(()));
}

#[test]
fn secp256k1_signature_of_another_message_is_refused() {
    let key = secp256k1_key(1);
    let signature = secp256k1_sign(1, b"another message");
    assert_eq!(
        key.verify_signature(MESSAGE, &signature),
        Err(SignatureVerificationError::SignatureError)
    );
}

#[test]
fn secp256k1_signature_of_another_key_is_refused() {
    let signature = secp256k1_sign(2, MESSAGE);
    assert_eq!(
        secp256k1_key(1).verify_signature(MESSAGE, &signature),
        Err(SignatureVerificationError::SignatureError)
    );
}

#[test]
fn secp256k1_signature_that_was_changed_is_refused() {
    let key = secp256k1_key(1);
    let mut signature = secp256k1_sign(1, MESSAGE);
    signature[10] ^= 1;
    assert_eq!(
        key.verify_signature(MESSAGE, &signature),
        Err(SignatureVerificationError::SignatureError)
    );
}

#[test]
fn secp256k1_signature_of_wrong_length_is_refused() {
    let key = secp256k1_key(1);
    let mut signature = secp256k1_sign(1, MESSAGE);
    signature.pop();
    assert_eq!(
        key.verify_signature(MESSAGE, &signature),
        Err(SignatureVerificationError::SignatureError)
    );
    assert_eq!(
        key.verify_signature(MESSAGE, &[]),
        Err(SignatureVerificationError::SignatureError)
    );
}

#[test]
fn secp256k1_key_that_is_malformed_verifies_nothing() {
    let key = Secp256k1PubKey { key: vec![1, 2, 3] };
    let signature = secp256k1_sign(1, MESSAGE);
    assert_eq!(
        key.verify_signature(MESSAGE, &signature),
        Err(SignatureVerificationError::SignatureError)
    );
}

#[test]
fn secp256k1_key_may_be_uncompressed() {
    let signer = secp256k1_signer(1);
    let point = signer.verifying_key().to_encoded_point(false);
    let key = Secp256k1PubKey { key: point.as_bytes().to_vec() };
    assert_eq!(key.key.len(), 65);
    assert_eq!(key.verify_signature(MESSAGE, &secp256k1_sign(1, MESSAGE)), Ok(()));
}

#[test]
fn ed25519_signature_is_accepted() {
    let key = ed25519_key(2);
    let signature = ed25519_sign(2, MESSAGE);
    assert_eq!(key.verify_signature(MESSAGE, &signature), Ok(()));
    assert_eq!(verify_signature(&PublicKey::Ed25519(key), MESSAGE, &single(signature)), Ok(()));
}

#[test]
fn ed25519_signature_of_the_standard_vector_is_accepted() {
    let key = Ed25519PubKey {
        key: hex::decode("d75a980182b10ab7d54bfed3c964073a0ee172f3daa62325af021a68f707511a")
            .unwrap(),
    };
    let signature = hex::decode("e5564300c360ac729086e2cc806e828a84877f1eb8e5d974d873e065224901555fb8821590a33bacc61e39701cf9b46bd25bf5f0595bbe24655141438e7a100b").unwrap();
    assert_eq!(key.verify_signature(b"", &signature), Ok(()));
    assert_eq!(
        key.verify_signature(b"x", &signature),
        Err(SignatureVerificationError::SignatureError)
    );
}

#[test]
fn ed25519_signature_must_be_64_bytes_long() {
    let key = ed25519_key(2);
    let mut short = ed25519_sign(2, MESSAGE);
    short.pop();
    assert_eq!(
        key.verify_signature(MESSAGE, &short),
        invalid_data(SignatureDataFault::SignatureLength)
    );
    let mut long = ed25519_sign(2, MESSAGE);
    long.push(0);
    assert_eq!(
        key.verify_signature(MESSAGE, &long),
        invalid_data(SignatureDataFault::SignatureLength)
    );
    assert_eq!(
        verify_signature(&PublicKey::Ed25519(key), MESSAGE, &single(vec![])),
        invalid_data(SignatureDataFault::SignatureLength)
    );
}

#[test]
fn ed25519_signature_of_another_message_is_refused() {
    let signature = ed25519_sign(2, b"another message");
    assert_eq!(
        ed25519_key(2).verify_signature(MESSAGE, &signature),
        Err(SignatureVerificationError::SignatureError)
    );
}

#[test]
fn ed25519_signature_with_high_bits_set_is_refused() {
    let mut signature = ed25519_sign(2, MESSAGE);
    signature[63] |= 0b1110_0000;
    assert_eq!(
        ed25519_key(2).verify_signature(MESSAGE, &signature),
        Err(SignatureVerificationError::SignatureError)
    );
}

#[test]
fn ed25519_key_that_is_malformed_verifies_nothing() {
    let key = Ed25519PubKey { key: vec![7; 31] };
    assert_eq!(
        key.verify_signature(MESSAGE, &ed25519_sign(2, MESSAGE)),
        Err(SignatureVerificationError::SignatureError)
    );
}

#[test]
fn single_key_refuses_multisig_data() {
    let data = SignatureData::Multi(multi(&[true], vec![member(secp256k1_sign(1, MESSAGE))]));
    assert_eq!(
        verify_signature(&PublicKey::Secp256k1(secp256k1_key(1)), MESSAGE, &data),
        Err(SignatureVerificationError::InvalidPubKey)
    );
    assert_eq!(
        verify_signature(&PublicKey::Ed25519(ed25519_key(2)), MESSAGE, &data),
        Err(SignatureVerificationError::InvalidPubKey)
    );
}

#[test]
fn multisig_key_refuses_a_single_signature() {
    let data = single(secp256k1_sign(1, MESSAGE));
    assert_eq!(
        verify_signature(&PublicKey::Multisig(three_keys(1)), MESSAGE, &data),
        Err(SignatureVerificationError::InvalidPubKey)
    );
}

#[test]
fn two_of_three_signatures_are_accepted() {
    let key = three_keys(2);
    let data = multi(
        &[true, false, true],
        vec![member(secp256k1_sign(1, MESSAGE)), member(secp256k1_sign(3, MESSAGE))],
    );
    assert_eq!(key.verify_multi_signature(MESSAGE, &data), Ok(()));
    assert_eq!(
        verify_signature(&PublicKey::Multisig(key), MESSAGE, &SignatureData::Multi(data)),
        Ok(())
    );
}

#[test]
fn signatures_go_with_the_set_bits_in_order() {
    let key = three_keys(2);
    let swapped = multi(
        &[true, false, true],
        vec![member(secp256k1_sign(3, MESSAGE)), member(secp256k1_sign(1, MESSAGE))],
    );
    assert_eq!(
        key.verify_multi_signature(MESSAGE, &swapped),
        Err(SignatureVerificationError::SignatureError)
    );
    // The second signature belongs to the key at position 2, not at position 1.
    let wrong_bits = multi(
        &[true, true, false],
        vec![member(secp256k1_sign(1, MESSAGE)), member(secp256k1_sign(3, MESSAGE))],
    );
    assert_eq!(
        key.verify_multi_signature(MESSAGE, &wrong_bits),
        Err(SignatureVerificationError::SignatureError)
    );
}

#[test]
fn members_of_different_kinds_sign_together() {
    let key = three_keys(2);
    let data = multi(
        &[false, true, true],
        vec![member(ed25519_sign(2, MESSAGE)), member(secp256k1_sign(3, MESSAGE))],
    );
    assert_eq!(key.verify_multi_signature(MESSAGE, &data), Ok(()));
}

#[test]
fn all_three_members_sign() {
    let key = three_keys(2);
    let data = multi(
        &[true, true, true],
        vec![
            member(secp256k1_sign(1, MESSAGE)),
            member(ed25519_sign(2, MESSAGE)),
            member(secp256k1_sign(3, MESSAGE)),
        ],
    );
    assert_eq!(key.verify_multi_signature(MESSAGE, &data), Ok(()));
}

#[test]
fn one_failing_signature_fails_the_whole() {
    let key = three_keys(2);
    let data = multi(
        &[true, true, true],
        vec![
            member(secp256k1_sign(1, MESSAGE)),
            member(ed25519_sign(2, MESSAGE)),
            member(secp256k1_sign(3, b"another message")),
        ],
    );
    assert_eq!(
        key.verify_multi_signature(MESSAGE, &data),
        Err(SignatureVerificationError::SignatureError)
    );
}

#[test]
fn one_signature_is_too_few_for_threshold_two() {
    let key = three_keys(2);
    let data = multi(&[true, false, true], vec![member(secp256k1_sign(1, MESSAGE))]);
    assert_eq!(
        key.verify_multi_signature(MESSAGE, &data),
        invalid_data(SignatureDataFault::SignatureCount { count: 1 })
    );
}

#[test]
fn three_bits_with_two_signatures_are_refused() {
    let key = three_keys(2);
    let data = multi(
        &[true, true, true],
        vec![member(secp256k1_sign(1, MESSAGE)), member(ed25519_sign(2, MESSAGE))],
    );
    assert_eq!(
        key.verify_multi_signature(MESSAGE, &data),
        invalid_data(SignatureDataFault::SignatureCount { count: 2 })
    );
}

#[test]
fn more_signatures_than_members_are_refused() {
    let key = three_keys(2);
    let data = multi(
        &[true, true, true],
        vec![
            member(secp256k1_sign(1, MESSAGE)),
            member(ed25519_sign(2, MESSAGE)),
            member(secp256k1_sign(3, MESSAGE)),
            member(secp256k1_sign(3, MESSAGE)),
        ],
    );
    assert_eq!(
        key.verify_multi_signature(MESSAGE, &data),
        invalid_data(SignatureDataFault::SignatureCount { count: 4 })
    );
}

#[test]
fn signatures_beyond_the_set_bits_are_not_looked_at() {
    let key = three_keys(2);
    let data = multi(
        &[true, false, true],
        vec![
            member(secp256k1_sign(1, MESSAGE)),
            member(secp256k1_sign(3, MESSAGE)),
            member(vec![1, 2, 3]),
        ],
    );
    assert_eq!(key.verify_multi_signature(MESSAGE, &data), Ok(()));
}

#[test]
fn bit_array_must_have_one_bit_for_each_member() {
    let key = three_keys(2);
    let signatures = || vec![member(secp256k1_sign(1, MESSAGE)), member(ed25519_sign(2, MESSAGE))];
    let short = multi(&[true, true], signatures());
    assert_eq!(
        key.verify_multi_signature(MESSAGE, &short),
        invalid_data(SignatureDataFault::BitArraySize { size: 2 })
    );
    let long = multi(&[true, true, false, false], signatures());
    assert_eq!(
        key.verify_multi_signature(MESSAGE, &long),
        invalid_data(SignatureDataFault::BitArraySize { size: 4 })
    );
}

#[test]
fn too_few_set_bits_are_refused() {
    let key = three_keys(2);
    let data = multi(
        &[true, false, false],
        vec![member(secp256k1_sign(1, MESSAGE)), member(secp256k1_sign(3, MESSAGE))],
    );
    assert_eq!(
        key.verify_multi_signature(MESSAGE, &data),
        invalid_data(SignatureDataFault::TooFewBitsSet { have: 1, expected: 2 })
    );
}

#[test]
fn multisig_data_needs_a_bit_array() {
    let key = three_keys(2);
    let data = MultiSignatureData {
        bitarray: None,
        signatures: vec![member(secp256k1_sign(1, MESSAGE)), member(ed25519_sign(2, MESSAGE))],
    };
    assert_eq!(
        key.verify_multi_signature(MESSAGE, &data),
        invalid_data(SignatureDataFault::MissingBitArray)
    );
}

#[test]
fn bit_array_with_fields_that_disagree_is_refused() {
    let key = three_keys(2);
    let signatures = || vec![member(secp256k1_sign(1, MESSAGE)), member(ed25519_sign(2, MESSAGE))];
    let no_bytes = MultiSignatureData {
        bitarray: Some(CompactBitArray { extra_bits_stored: 3, elems: vec![] }),
        signatures: signatures(),
    };
    assert_eq!(
        key.verify_multi_signature(MESSAGE, &no_bytes),
        invalid_data(SignatureDataFault::MalformedBitArray)
    );
    let too_many_extra_bits = MultiSignatureData {
        bitarray: Some(CompactBitArray { extra_bits_stored: 11, elems: vec![0xff] }),
        signatures: signatures(),
    };
    assert_eq!(
        key.verify_multi_signature(MESSAGE, &too_many_extra_bits),
        invalid_data(SignatureDataFault::MalformedBitArray)
    );
}

#[test]
fn member_signature_without_data_is_refused() {
    let key = three_keys(2);
    let data = multi(
        &[true, false, true],
        vec![member(secp256k1_sign(1, MESSAGE)), Signature { sum: None }],
    );
    assert_eq!(
        key.verify_multi_signature(MESSAGE, &data),
        invalid_data(SignatureDataFault::MissingSignatureData)
    );
}

#[test]
fn first_failure_decides() {
    let key = three_keys(2);
    let data = multi(
        &[true, true, true],
        vec![
            Signature { sum: None },
            member(vec![0; 3]),
            member(secp256k1_sign(3, b"another message")),
        ],
    );
    assert_eq!(
        key.verify_multi_signature(MESSAGE, &data),
        invalid_data(SignatureDataFault::MissingSignatureData)
    );
    let data = multi(
        &[true, true, true],
        vec![
            member(secp256k1_sign(1, MESSAGE)),
            member(vec![0; 3]),
            member(secp256k1_sign(3, b"another message")),
        ],
    );
    assert_eq!(
        key.verify_multi_signature(MESSAGE, &data),
        invalid_data(SignatureDataFault::SignatureLength)
    );
}

#[test]
fn member_key_of_unknown_type_is_refused() {
    let key = MultisigPubKey {
        threshold: 1,
        public_keys: vec![Any { type_url: "/unknown".to_owned(), value: vec![] }],
    };
    let data = multi(&[true], vec![member(secp256k1_sign(1, MESSAGE))]);
    assert_eq!(
        key.verify_multi_signature(MESSAGE, &data),
        Err(SignatureVerificationError::PublicKeyError(PublicKeyError::UnknownType))
    );
}

#[test]
fn member_key_that_cannot_be_decoded_is_refused() {
    let key = MultisigPubKey {
        threshold: 1,
        public_keys: vec![Any {
            type_url: "/cosmos.crypto.ed25519.PubKey".to_owned(),
            value: vec![0x0a, 0x20, 0x01],
        }],
    };
    let data = multi(&[true], vec![member(ed25519_sign(2, MESSAGE))]);
    assert_eq!(
        key.verify_multi_signature(MESSAGE, &data),
        Err(SignatureVerificationError::PublicKeyError(PublicKeyError::DecodeError))
    );
}

#[test]
fn member_key_that_is_not_signed_for_is_not_read() {
    let key = MultisigPubKey {
        threshold: 1,
        public_keys: vec![
            Any { type_url: "/unknown".to_owned(), value: vec![] },
            PublicKey::Ed25519(ed25519_key(2)).to_any().unwrap(),
        ],
    };
    let data = multi(&[false, true], vec![member(ed25519_sign(2, MESSAGE))]);
    assert_eq!(key.verify_multi_signature(MESSAGE, &data), Ok(()));
}

#[test]
fn member_of_a_multisig_key_may_be_a_multisig_key() {
    let inner = three_keys(2);
    let outer = MultisigPubKey {
        threshold: 2,
        public_keys: vec![
            PublicKey::Multisig(inner).to_any().unwrap(),
            PublicKey::Ed25519(ed25519_key(4)).to_any().unwrap(),
        ],
    };
    let inner_data = multi(
        &[true, true, false],
        vec![member(secp256k1_sign(1, MESSAGE)), member(ed25519_sign(2, MESSAGE))],
    );
    let data = multi(
        &[true, true],
        vec![
            Signature { sum: Some(SignatureData::Multi(inner_data)) },
            member(ed25519_sign(4, MESSAGE)),
        ],
    );
    assert_eq!(outer.verify_multi_signature(MESSAGE, &data), Ok(()));
    // A single signature where the member is a multisig key does not fit.
    let misfit = multi(
        &[true, true],
        vec![member(secp256k1_sign(1, MESSAGE)), member(ed25519_sign(4, MESSAGE))],
    );
    assert_eq!(
        outer.verify_multi_signature(MESSAGE, &misfit),
        Err(SignatureVerificationError::InvalidPubKey)
    );
}

#[test]
fn signature_data_is_copied_whole() {
    let inner = multi(
        &[true, true, false],
        vec![member(secp256k1_sign(1, MESSAGE)), Signature { sum: None }],
    );
    let data = SignatureData::Multi(multi(
        &[true, true],
        vec![Signature { sum: Some(SignatureData::Multi(inner)) }, member(ed25519_sign(4, MESSAGE))],
    ));
    let copy = data.clone();
    assert_eq!(copy, data);
    let single_data = single(vec![1, 2, 3]);
    assert_eq!(single_data.clone(), single_data);
    let empty = Signature { sum: None };
    assert_eq!(empty.clone(), empty);
}

#[test]
fn threshold_zero_with_no_members_accepts_nothing_signed() {
    let key = MultisigPubKey { threshold: 0, public_keys: vec![] };
    let data = multi(&[], vec![]);
    assert_eq!(key.verify_multi_signature(MESSAGE, &data), Ok(()));
}

#[test]
fn threshold_above_the_members_is_never_met() {
    let key = three_keys(4);
    let data = multi(
        &[true, true, true],
        vec![
            member(secp256k1_sign(1, MESSAGE)),
            member(ed25519_sign(2, MESSAGE)),
            member(secp256k1_sign(3, MESSAGE)),
        ],
    );
    assert_eq!(
        key.verify_multi_signature(MESSAGE, &data),
        invalid_data(SignatureDataFault::SignatureCount { count: 3 })
    );
}
