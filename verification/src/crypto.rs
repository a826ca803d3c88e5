//! Public keys of the three kinds that a solo machine can sign with, their
//! addresses, and the verification of signatures under them.

use crate::any::{any_views, Any, AnyView};
use crate::bit_array::{
    count_true, lemma_count_true_bound, lemma_count_true_monotonic, lemma_count_true_step,
    lemma_rank_decides_position, CompactBitArray,
};
use crate::digest::{
    hex_encode, hex_string, ripemd160, ripemd160_digest, sha256, sha256_digest,
};
use crate::signature_data::{
    lemma_multi_signature_view, lemma_signature_view, MultiSignatureData,
    MultiSignatureDataView, SignatureData, SignatureDataView,
};
use crate::signing::{
    ed25519_key_bytes, ed25519_public_key, ed25519_signature_valid, ed25519_verify,
    secp256k1_compress, secp256k1_compressed, secp256k1_signature_valid, secp256k1_verify,
};
use crate::text::str_eq;
use crate::validation::validation_result;
use crate::wire::{
    decode_ed25519_pub_key, decode_multisig_pub_key, decode_secp256k1_pub_key,
    ed25519_pub_key_decoding, ed25519_pub_key_encoding, encode_ed25519_pub_key,
    encode_multisig_pub_key, encode_secp256k1_pub_key, multisig_pub_key_decoding,
    multisig_pub_key_encoding, secp256k1_pub_key_decoding, secp256k1_pub_key_encoding,
};
use vstd::prelude::*;
use vstd::slice::slice_subrange;

verus! {

/// Tag of a secp256k1 key in a typed envelope.
pub const SECP256K1_PUB_KEY_TYPE_URL: &'static str = "/cosmos.crypto.secp256k1.PubKey";

/// Tag of an Ed25519 key in a typed envelope.
pub const ED25519_PUB_KEY_TYPE_URL: &'static str = "/cosmos.crypto.ed25519.PubKey";

/// Tag of a multisig key in a typed envelope.
pub const MULTISIG_PUB_KEY_TYPE_URL: &'static str = "/cosmos.crypto.multisig.LegacyAminoPubKey";

/// Number of digest bytes that make an address.
pub const ADDRESS_SIZE: usize = 20;

/// A secp256k1 public key in SEC1 encoding.
#[derive(Clone, Debug, PartialEq, Eq)]
pub struct Secp256k1PubKey {
    pub key: Vec<u8>,
}

/// An Ed25519 public key.
#[derive(Clone, Debug, PartialEq, Eq)]
pub struct Ed25519PubKey {
    pub key: Vec<u8>,
}

/// A threshold key: `threshold` of the member keys must sign.
#[derive(Clone, Debug, PartialEq, Eq)]
pub struct MultisigPubKey {
    pub threshold: u32,
    /// The member keys, each in its typed envelope.
    pub public_keys: Vec<Any>,
}

/// A public key of one of the three kinds.
#[derive(Clone, Debug, PartialEq, Eq)]
pub enum PublicKey {
    Secp256k1(Secp256k1PubKey),
    Ed25519(Ed25519PubKey),
    Multisig(MultisigPubKey),
}

/// The mathematical content of a `MultisigPubKey`.
pub struct MultisigPubKeyView {
    pub threshold: u32,
    pub public_keys: Seq<AnyView>,
}

/// The mathematical content of a `PublicKey`.
pub enum PublicKeyView {
    Secp256k1(Seq<u8>),
    Ed25519(Seq<u8>),
    Multisig(MultisigPubKeyView),
}

/// Why a typed envelope gave no public key, or a key no envelope.
#[derive(Clone, Debug, PartialEq, Eq)]
pub enum PublicKeyError {
    /// The payload is not a valid message of the tagged type.
    DecodeError,
    /// The encoder could not write the key.
    EncodeError,
    /// The tag names none of the three key types.
    UnknownType,
}

/// What is wrong with signature data, apart from the signatures themselves.
#[derive(Clone, Debug, PartialEq, Eq)]
pub enum SignatureDataFault {
    /// An Ed25519 signature is not 64 bytes long.
    SignatureLength,
    /// Multisig data without a bit array.
    MissingBitArray,
    /// A bit array whose fields do not agree with each other.
    MalformedBitArray,
    /// The bit array has `size` bits, which is not the number of member keys.
    BitArraySize { size: usize },
    /// `count` signatures were given: fewer than the threshold, more than
    /// there are member keys, or fewer than there are bits set.
    SignatureCount { count: usize },
    /// Only `have` bits are set where the threshold is `expected`.
    TooFewBitsSet { have: usize, expected: usize },
    /// A member's signature message holds no signature data.
    MissingSignatureData,
}

/// Why a signature was not accepted.
#[derive(Clone, Debug, PartialEq, Eq)]
pub enum SignatureVerificationError {
    /// The kind of the signature data does not fit the kind of the key.
    InvalidPubKey,
    /// The signature data is malformed.
    InvalidSignatureData(SignatureDataFault),
    /// A member key of a multisig key could not be read.
    PublicKeyError(PublicKeyError),
    /// The key or the signature could not be parsed, or the signature is not
    /// one of the message under the key.
    SignatureError,
}

/// Why a key has no address.
#[derive(Clone, Debug, PartialEq, Eq)]
pub enum AddressError {
    /// The encoder could not write the key.
    EncodeError,
    /// The key bytes are not a key of their curve.
    SignatureError,
}

impl View for Secp256k1PubKey {
    type V = Seq<u8>;

    open spec fn view(&self) -> Seq<u8> {
        self.key@
    }
}

impl View for Ed25519PubKey {
    type V = Seq<u8>;

    open spec fn view(&self) -> Seq<u8> {
        self.key@
    }
}

impl View for MultisigPubKey {
    type V = MultisigPubKeyView;

    open spec fn view(&self) -> MultisigPubKeyView {
        MultisigPubKeyView { threshold: self.threshold, public_keys: any_views(self.public_keys@) }
    }
}

impl View for PublicKey {
    type V = PublicKeyView;

    open spec fn view(&self) -> PublicKeyView {
        match self {
            PublicKey::Secp256k1(key) => PublicKeyView::Secp256k1(key@),
            PublicKey::Ed25519(key) => PublicKeyView::Ed25519(key@),
            PublicKey::Multisig(key) => PublicKeyView::Multisig(key@),
        }
    }
}

/// The key that a typed envelope holds: the payload decoded as the type that
/// the tag names.
pub open spec fn public_key_of(raw: AnyView) -> Result<PublicKeyView, PublicKeyError> {
    if raw.type_url == SECP256K1_PUB_KEY_TYPE_URL@ {
        match secp256k1_pub_key_decoding(raw.value) {
            Some(key) => Ok(PublicKeyView::Secp256k1(key)),
            None => Err(PublicKeyError::DecodeError),
        }
    } else if raw.type_url == ED25519_PUB_KEY_TYPE_URL@ {
        match ed25519_pub_key_decoding(raw.value) {
            Some(key) => Ok(PublicKeyView::Ed25519(key)),
            None => Err(PublicKeyError::DecodeError),
        }
    } else if raw.type_url == MULTISIG_PUB_KEY_TYPE_URL@ {
        match multisig_pub_key_decoding(raw.value) {
            Some(key) => Ok(PublicKeyView::Multisig(key)),
            None => Err(PublicKeyError::DecodeError),
        }
    } else {
        Err(PublicKeyError::UnknownType)
    }
}

/// The typed envelope of a key: its tag and its encoding.
pub open spec fn any_of(key: PublicKeyView) -> Result<AnyView, PublicKeyError> {
    match key {
        PublicKeyView::Secp256k1(k) => match secp256k1_pub_key_encoding(k) {
            Some(value) => Ok(AnyView { type_url: SECP256K1_PUB_KEY_TYPE_URL@, value }),
            None => Err(PublicKeyError::EncodeError),
        },
        PublicKeyView::Ed25519(k) => match ed25519_pub_key_encoding(k) {
            Some(value) => Ok(AnyView { type_url: ED25519_PUB_KEY_TYPE_URL@, value }),
            None => Err(PublicKeyError::EncodeError),
        },
        PublicKeyView::Multisig(k) => match multisig_pub_key_encoding(k) {
            Some(value) => Ok(AnyView { type_url: MULTISIG_PUB_KEY_TYPE_URL@, value }),
            None => Err(PublicKeyError::EncodeError),
        },
    }
}

/// Whether a key holds nothing: no key bytes, or, for a multisig key, an
/// encoding of length zero.
pub open spec fn is_empty_key(key: PublicKeyView) -> bool {
    match key {
        PublicKeyView::Secp256k1(k) => k.len() == 0,
        PublicKeyView::Ed25519(k) => k.len() == 0,
        PublicKeyView::Multisig(k) => multisig_pub_key_encoding(k) matches Some(bytes)
            && bytes.len() == 0,
    }
}

/// The address of a secp256k1 key: RIPEMD-160 of SHA-256 of the compressed
/// key, in hexadecimal.
pub open spec fn secp256k1_address(key: Seq<u8>) -> Result<Seq<char>, AddressError> {
    match secp256k1_compressed(key) {
        Some(point) => Ok(hex_string(ripemd160(sha256(point)))),
        None => Err(AddressError::SignatureError),
    }
}

/// The address of an Ed25519 key: the first 20 bytes of SHA-256 of the key,
/// in hexadecimal.
pub open spec fn ed25519_address(key: Seq<u8>) -> Result<Seq<char>, AddressError> {
    match ed25519_public_key(key) {
        Some(bytes) => Ok(hex_string(sha256(bytes).take(ADDRESS_SIZE as int))),
        None => Err(AddressError::SignatureError),
    }
}

/// The address of a multisig key: the first 20 bytes of SHA-256 of its
/// encoding, in hexadecimal.
pub open spec fn multisig_address(key: MultisigPubKeyView) -> Result<Seq<char>, AddressError> {
    match multisig_pub_key_encoding(key) {
        Some(bytes) => Ok(hex_string(sha256(bytes).take(ADDRESS_SIZE as int))),
        None => Err(AddressError::EncodeError),
    }
}

/// The address of a key of any kind.
pub open spec fn address_of(key: PublicKeyView) -> Result<Seq<char>, AddressError> {
    match key {
        PublicKeyView::Secp256k1(k) => secp256k1_address(k),
        PublicKeyView::Ed25519(k) => ed25519_address(k),
        PublicKeyView::Multisig(k) => multisig_address(k),
    }
}

/// The content of a result that holds a string.
pub open spec fn string_result_view<E>(r: Result<String, E>) -> Result<Seq<char>, E> {
    match r {
        Ok(s) => Ok(s@),
        Err(e) => Err(e),
    }
}

/// The content of a result that holds a key.
pub open spec fn key_result_view<E>(r: Result<PublicKey, E>) -> Result<PublicKeyView, E> {
    match r {
        Ok(key) => Ok(key@),
        Err(e) => Err(e),
    }
}

/// The content of a result that holds an envelope.
pub open spec fn any_result_view<E>(r: Result<Any, E>) -> Result<AnyView, E> {
    match r {
        Ok(any) => Ok(any@),
        Err(e) => Err(e),
    }
}

/// The hexadecimal text of the first 20 bytes of a digest.
fn short_digest_hex(digest: &Vec<u8>) -> (s: String)
    requires
        digest@.len() >= ADDRESS_SIZE,
    ensures
        s@ == hex_string(digest@.take(ADDRESS_SIZE as int)),
        s@.len() == 2 * ADDRESS_SIZE,
{
    let head = slice_subrange(digest.as_slice(), 0, ADDRESS_SIZE);
    assert(head@ == digest@.take(ADDRESS_SIZE as int));
    hex_encode(head)
}

impl Secp256k1PubKey {
    /// The address of the key, 40 hexadecimal digits. It fails where the bytes
    /// encode no point of the curve.
    pub fn address(&self) -> (r: Result<String, AddressError>)
        ensures
            string_result_view(r) == secp256k1_address(self@),
            r matches Ok(s) ==> s@.len() == 2 * ADDRESS_SIZE,
    {
        match secp256k1_compress(self.key.as_slice()) {
            Err(_) => Err(AddressError::SignatureError),
            Ok(point) => {
                let inner = sha256_digest(point.as_slice());
                let outer = ripemd160_digest(inner.as_slice());
                Ok(hex_encode(outer.as_slice()))
            },
        }
    }
}

impl Ed25519PubKey {
    /// The address of the key, 40 hexadecimal digits. It fails where the bytes
    /// are no key of the curve.
    pub fn address(&self) -> (r: Result<String, AddressError>)
        ensures
            string_result_view(r) == ed25519_address(self@),
            r matches Ok(s) ==> s@.len() == 2 * ADDRESS_SIZE,
    {
        match ed25519_key_bytes(self.key.as_slice()) {
            Err(_) => Err(AddressError::SignatureError),
            Ok(bytes) => {
                let digest = sha256_digest(bytes.as_slice());
                Ok(short_digest_hex(&digest))
            },
        }
    }
}

impl MultisigPubKey {
    /// The address of the key, 40 hexadecimal digits. It fails where the key
    /// cannot be encoded.
    pub fn address(&self) -> (r: Result<String, AddressError>)
        ensures
            string_result_view(r) == multisig_address(self@),
            r matches Ok(s) ==> s@.len() == 2 * ADDRESS_SIZE,
    {
        match encode_multisig_pub_key(self) {
            Err(_) => Err(AddressError::EncodeError),
            Ok(bytes) => {
                let digest = sha256_digest(bytes.as_slice());
                Ok(short_digest_hex(&digest))
            },
        }
    }
}

impl PublicKey {
    /// Whether the key holds nothing.
    pub fn is_empty(&self) -> (b: bool)
        ensures
            b == is_empty_key(self@),
    {
        match self {
            PublicKey::Secp256k1(key) => key.key.len() == 0,
            PublicKey::Ed25519(key) => key.key.len() == 0,
            PublicKey::Multisig(key) => match encode_multisig_pub_key(key) {
                Ok(bytes) => bytes.len() == 0,
                Err(_) => false,
            },
        }
    }

    /// The address of the key: 40 hexadecimal digits that depend on the key
    /// alone.
    pub fn address(&self) -> (r: Result<String, AddressError>)
        ensures
            string_result_view(r) == address_of(self@),
            r matches Ok(s) ==> s@.len() == 2 * ADDRESS_SIZE,
    {
        match self {
            PublicKey::Secp256k1(key) => key.address(),
            PublicKey::Ed25519(key) => key.address(),
            PublicKey::Multisig(key) => key.address(),
        }
    }

    /// The key in a typed envelope: the payload decoded as the type that the
    /// tag names. An unknown tag and an invalid payload are refused.
    pub fn try_from(raw: &Any) -> (r: Result<PublicKey, PublicKeyError>)
        ensures
            key_result_view(r) == public_key_of(raw@),
    {
        let url = raw.type_url.as_str();
        if str_eq(url, SECP256K1_PUB_KEY_TYPE_URL) {
            match decode_secp256k1_pub_key(raw.value.as_slice()) {
                Ok(key) => Ok(PublicKey::Secp256k1(key)),
                Err(_) => Err(PublicKeyError::DecodeError),
            }
        } else if str_eq(url, ED25519_PUB_KEY_TYPE_URL) {
            match decode_ed25519_pub_key(raw.value.as_slice()) {
                Ok(key) => Ok(PublicKey::Ed25519(key)),
                Err(_) => Err(PublicKeyError::DecodeError),
            }
        } else if str_eq(url, MULTISIG_PUB_KEY_TYPE_URL) {
            match decode_multisig_pub_key(raw.value.as_slice()) {
                Ok(key) => Ok(PublicKey::Multisig(key)),
                Err(_) => Err(PublicKeyError::DecodeError),
            }
        } else {
            Err(PublicKeyError::UnknownType)
        }
    }

    /// The typed envelope of the key: the tag of its kind and its encoding.
    pub fn to_any(&self) -> (r: Result<Any, PublicKeyError>)
        ensures
            any_result_view(r) == any_of(self@),
    {
        match self {
            PublicKey::Secp256k1(key) => match encode_secp256k1_pub_key(key) {
                Ok(value) => Ok(Any { type_url: SECP256K1_PUB_KEY_TYPE_URL.to_owned(), value }),
                Err(_) => Err(PublicKeyError::EncodeError),
            },
            PublicKey::Ed25519(key) => match encode_ed25519_pub_key(key) {
                Ok(value) => Ok(Any { type_url: ED25519_PUB_KEY_TYPE_URL.to_owned(), value }),
                Err(_) => Err(PublicKeyError::EncodeError),
            },
            PublicKey::Multisig(key) => match encode_multisig_pub_key(key) {
                Ok(value) => Ok(Any { type_url: MULTISIG_PUB_KEY_TYPE_URL.to_owned(), value }),
                Err(_) => Err(PublicKeyError::EncodeError),
            },
        }
    }
}

/// Length of an Ed25519 signature in bytes.
pub const ED25519_SIGNATURE_SIZE: usize = 64;

/// The outcome of checking a signature.
pub type Verdict = Result<(), SignatureVerificationError>;

/// The outcome of checking `signature` against `msg` under a secp256k1 key.
pub open spec fn secp256k1_verdict(key: Seq<u8>, msg: Seq<u8>, signature: Seq<u8>) -> Verdict {
    if secp256k1_signature_valid(key, msg, signature) {
        Ok(())
    } else {
        Err(SignatureVerificationError::SignatureError)
    }
}

/// The outcome of checking `signature` against `msg` under an Ed25519 key: a
/// signature of any length but 64 is malformed data.
pub open spec fn ed25519_verdict(key: Seq<u8>, msg: Seq<u8>, signature: Seq<u8>) -> Verdict {
    if signature.len() != ED25519_SIGNATURE_SIZE {
        Err(SignatureVerificationError::InvalidSignatureData(SignatureDataFault::SignatureLength))
    } else if ed25519_signature_valid(key, msg, signature) {
        Ok(())
    } else {
        Err(SignatureVerificationError::SignatureError)
    }
}

/// The position of the set bit that has `rank` set bits before it.
pub open spec fn nth_set_bit(bits: Seq<bool>, rank: int) -> int {
    choose|p: int| 0 <= p < bits.len() && bits[p] && count_true(bits.take(p)) == rank
}

/// The first failure in a list of outcomes, or success where there is none.
#[verifier::opaque]
pub open spec fn first_failure(verdicts: Seq<Verdict>) -> Verdict {
    if forall|j: int| 0 <= j < verdicts.len() ==> (#[trigger] verdicts[j]) is Ok {
        Ok(())
    } else {
        verdicts[choose|j: int|
            0 <= j < verdicts.len() && (#[trigger] verdicts[j]) is Err && forall|k: int|
                0 <= k < j ==> (#[trigger] verdicts[k]) is Ok]
    }
}

/// The outcome of checking signature data against `msg` under a key. Single
/// signatures go with single keys and multisig data with multisig keys; any
/// other pairing is refused.
pub open spec fn signature_verdict(key: PublicKeyView, msg: Seq<u8>, data: SignatureDataView) -> Verdict
    decreases data,
{
    match (key, data) {
        (PublicKeyView::Secp256k1(k), SignatureDataView::Single { signature, .. }) => secp256k1_verdict(
            k,
            msg,
            signature,
        ),
        (PublicKeyView::Ed25519(k), SignatureDataView::Single { signature, .. }) => ed25519_verdict(
            k,
            msg,
            signature,
        ),
        (PublicKeyView::Multisig(k), SignatureDataView::Multi(m)) => multi_signature_verdict(
            k,
            msg,
            m,
        ),
        _ => Err(SignatureVerificationError::InvalidPubKey),
    }
}

/// The outcome of checking the signature with the given rank: it is checked
/// under the member key at the position of the set bit of that rank.
#[verifier::opaque]
pub open spec fn member_verdict(
    key: MultisigPubKeyView,
    msg: Seq<u8>,
    data: MultiSignatureDataView,
    bits: Seq<bool>,
    rank: int,
) -> Verdict
    decreases data, 0int,
{
    if 0 <= rank < data.signatures.len() {
        match data.signatures[rank].sum {
            None => Err(
                SignatureVerificationError::InvalidSignatureData(
                    SignatureDataFault::MissingSignatureData,
                ),
            ),
            Some(member_data) => match public_key_of(key.public_keys[nth_set_bit(bits, rank)]) {
                Err(e) => Err(SignatureVerificationError::PublicKeyError(e)),
                Ok(member_key) => signature_verdict(member_key, msg, member_data),
            },
        }
    } else {
        Ok(())
    }
}

/// What is wrong with the layout of multisig data for a key, if anything:
/// the bit array has one bit for each member key; at least `threshold`
/// signatures are given and at most one for each member; at least `threshold`
/// bits are set, and no more than there are signatures.
pub open spec fn multi_signature_fault(
    key: MultisigPubKeyView,
    data: MultiSignatureDataView,
) -> Option<SignatureDataFault> {
    match data.bitarray {
        None => Some(SignatureDataFault::MissingBitArray),
        Some(fields) => {
            let size = fields.len();
            let count = data.signatures.len();
            let set = count_true(fields.bits());
            if !fields.wf() {
                Some(SignatureDataFault::MalformedBitArray)
            } else if key.public_keys.len() != size {
                Some(SignatureDataFault::BitArraySize { size: size as usize })
            } else if count < key.threshold || count > size {
                Some(SignatureDataFault::SignatureCount { count: count as usize })
            } else if set < key.threshold {
                Some(
                    SignatureDataFault::TooFewBitsSet {
                        have: set as usize,
                        expected: key.threshold as usize,
                    },
                )
            } else if set > count {
                Some(SignatureDataFault::SignatureCount { count: count as usize })
            } else {
                None
            }
        },
    }
}

/// The outcomes of checking the signatures of multisig data, one for each set
/// bit, in the order of the bits.
pub open spec fn member_verdicts(
    key: MultisigPubKeyView,
    msg: Seq<u8>,
    data: MultiSignatureDataView,
    bits: Seq<bool>,
) -> Seq<Verdict>
    decreases data, 1int,
{
    Seq::new(count_true(bits), |rank: int| member_verdict(key, msg, data, bits, rank))
}

/// The outcome of checking multisig data against `msg` under a multisig key.
///
/// Data with a faulty layout is refused with that fault. Otherwise the
/// signatures stand in the order of the set bits: the first is checked under
/// the member key of the first set bit, and so on. The first signature that
/// fails decides; without a failure the data is accepted.
pub open spec fn multi_signature_verdict(
    key: MultisigPubKeyView,
    msg: Seq<u8>,
    data: MultiSignatureDataView,
) -> Verdict
    decreases data, 2int,
{
    match multi_signature_fault(key, data) {
        Some(fault) => Err(SignatureVerificationError::InvalidSignatureData(fault)),
        None => first_failure(member_verdicts(key, msg, data, data.bitarray->0.bits())),
    }
}

/// The first failure is the failure before which every outcome is a success.
pub proof fn lemma_first_failure_at(verdicts: Seq<Verdict>, j: int)
    requires
        0 <= j < verdicts.len(),
        verdicts[j] is Err,
        forall|k: int| 0 <= k < j ==> (#[trigger] verdicts[k]) is Ok,
    ensures
        first_failure(verdicts) == verdicts[j],
{
    reveal(first_failure);
    let c = choose|c: int|
        0 <= c < verdicts.len() && (#[trigger] verdicts[c]) is Err && forall|k: int|
            0 <= k < c ==> (#[trigger] verdicts[k]) is Ok;
    assert(c == j) by {
        if c < j {
            assert(verdicts[c] is Ok);
        } else if j < c {
            assert(verdicts[j] is Ok);
        }
    }
}

/// The list of member outcomes, entry by entry.
pub proof fn lemma_member_verdicts(
    key: MultisigPubKeyView,
    msg: Seq<u8>,
    data: MultiSignatureDataView,
    bits: Seq<bool>,
)
    ensures
        member_verdicts(key, msg, data, bits).len() == count_true(bits),
        forall|rank: int|
            0 <= rank < count_true(bits) ==> (#[trigger] member_verdicts(key, msg, data, bits)[rank])
                == member_verdict(key, msg, data, bits, rank),
{
    reveal(member_verdict);
}

/// A set bit is the set bit of its rank: of the number of set bits before it.
pub proof fn lemma_nth_set_bit(bits: Seq<bool>, position: int)
    requires
        0 <= position < bits.len(),
        bits[position],
    ensures
        nth_set_bit(bits, count_true(bits.take(position)) as int) == position,
        0 <= count_true(bits.take(position)) < count_true(bits),
{
    let rank = count_true(bits.take(position)) as int;
    lemma_rank_decides_position(bits, nth_set_bit(bits, rank), position);
    lemma_count_true_step(bits, position);
    lemma_count_true_monotonic(bits, position + 1, bits.len() as int);
    assert(bits.take(bits.len() as int) =~= bits);
}

/// Before a failure there is a first failure.
pub proof fn lemma_least_failure(verdicts: Seq<Verdict>, j: int) -> (first: int)
    requires
        0 <= j < verdicts.len(),
        verdicts[j] is Err,
    ensures
        0 <= first <= j,
        verdicts[first] is Err,
        forall|k: int| 0 <= k < first ==> (#[trigger] verdicts[k]) is Ok,
    decreases j,
{
    if forall|k: int| 0 <= k < j ==> (#[trigger] verdicts[k]) is Ok {
        j
    } else {
        let k = choose|k: int| 0 <= k < j && !((#[trigger] verdicts[k]) is Ok);
        lemma_least_failure(verdicts, k)
    }
}

/// There is no failure exactly where every outcome is a success.
pub proof fn lemma_no_failure_iff(verdicts: Seq<Verdict>)
    ensures
        first_failure(verdicts) is Ok <==> forall|k: int|
            0 <= k < verdicts.len() ==> (#[trigger] verdicts[k]) is Ok,
{
    if forall|k: int| 0 <= k < verdicts.len() ==> (#[trigger] verdicts[k]) is Ok {
        lemma_no_failure(verdicts);
    } else {
        let j = choose|j: int| 0 <= j < verdicts.len() && !((#[trigger] verdicts[j]) is Ok);
        let first = lemma_least_failure(verdicts, j);
        lemma_first_failure_at(verdicts, first);
    }
}

/// Multisig data is accepted exactly when its layout has no fault and every
/// signature that goes with a set bit is accepted under the member key of
/// that bit. There is no acceptance in part.
pub proof fn lemma_multi_signature_accepted_iff(
    key: MultisigPubKeyView,
    msg: Seq<u8>,
    data: MultiSignatureDataView,
)
    ensures
        multi_signature_verdict(key, msg, data) is Ok <==> {
            &&& multi_signature_fault(key, data) is None
            &&& forall|rank: int|
                0 <= rank < count_true(data.bitarray->0.bits()) ==> (#[trigger] member_verdict(
                    key,
                    msg,
                    data,
                    data.bitarray->0.bits(),
                    rank,
                )) is Ok
        },
{
    if multi_signature_fault(key, data) is None {
        let bits = data.bitarray->0.bits();
        let verdicts = member_verdicts(key, msg, data, bits);
        lemma_member_verdicts(key, msg, data, bits);
        lemma_no_failure_iff(verdicts);
        assert(multi_signature_verdict(key, msg, data) == first_failure(verdicts));
        if first_failure(verdicts) is Ok {
            assert forall|rank: int| 0 <= rank < count_true(bits) implies (#[trigger] member_verdict(
                key,
                msg,
                data,
                bits,
                rank,
            )) is Ok by {
                assert(verdicts[rank] is Ok);
            }
        } else {
            let j = choose|j: int| 0 <= j < verdicts.len() && !((#[trigger] verdicts[j]) is Ok);
            assert(member_verdict(key, msg, data, bits, j) is Err);
        }
    }
}

/// Where every outcome is a success there is no failure.
pub proof fn lemma_no_failure(verdicts: Seq<Verdict>)
    requires
        forall|k: int| 0 <= k < verdicts.len() ==> (#[trigger] verdicts[k]) is Ok,
    ensures
        first_failure(verdicts) == Ok::<(), SignatureVerificationError>(()),
{
    reveal(first_failure);
}

impl Secp256k1PubKey {
    /// Checks an ECDSA signature of `msg` under this key.
    pub fn verify_signature(&self, msg: &[u8], signature: &[u8]) -> (r: Verdict)
        ensures
            r == secp256k1_verdict(self@, msg@, signature@),
    {
        match secp256k1_verify(self.key.as_slice(), msg, signature) {
            Ok(()) => Ok(()),
            Err(_) => Err(SignatureVerificationError::SignatureError),
        }
    }
}

impl Ed25519PubKey {
    /// Checks an Ed25519 signature of `msg` under this key. The signature
    /// must be 64 bytes long.
    pub fn verify_signature(&self, msg: &[u8], signature: &[u8]) -> (r: Verdict)
        ensures
            r == ed25519_verdict(self@, msg@, signature@),
    {
        if signature.len() != ED25519_SIGNATURE_SIZE {
            return Err(
                SignatureVerificationError::InvalidSignatureData(
                    SignatureDataFault::SignatureLength,
                ),
            );
        }
        match ed25519_verify(self.key.as_slice(), msg, signature) {
            Ok(()) => Ok(()),
            Err(_) => Err(SignatureVerificationError::SignatureError),
        }
    }
}

impl MultisigPubKey {
    /// Looks for a fault in the layout of multisig data for this key.
    fn check_layout(&self, signature_data: &MultiSignatureData) -> (r: Result<
        (),
        SignatureDataFault,
    >)
        ensures
            r == validation_result(multi_signature_fault(self@, signature_data@)),
            r is Ok ==> {
                &&& signature_data.bitarray matches Some(bit_array)
                &&& bit_array.wf()
                &&& bit_array@.len() == self.public_keys@.len()
                &&& count_true(bit_array@) <= signature_data.signatures@.len()
            },
    {
        proof {
            lemma_multi_signature_view(*signature_data);
        }
        let threshold: usize = self.threshold as usize;
        let bit_array = match &signature_data.bitarray {
            Some(bit_array) => bit_array,
            None => {
                return Err(SignatureDataFault::MissingBitArray);
            },
        };
        let signatures = &signature_data.signatures;
        if !bit_array.is_well_formed() {
            return Err(SignatureDataFault::MalformedBitArray);
        }
        let size: usize = bit_array.len();
        if self.public_keys.len() != size {
            return Err(SignatureDataFault::BitArraySize { size });
        }
        if signatures.len() < threshold || signatures.len() > size {
            return Err(SignatureDataFault::SignatureCount { count: signatures.len() });
        }
        let set: usize = bit_array.num_true_bits_before(size);
        assert(bit_array@.take(size as int) =~= bit_array@);
        if set < threshold {
            return Err(SignatureDataFault::TooFewBitsSet { have: set, expected: threshold });
        }
        if set > signatures.len() {
            return Err(SignatureDataFault::SignatureCount { count: signatures.len() });
        }
        Ok(())
    }

    /// Checks the signature of the given rank under the member key at
    /// `position`, the position of the set bit of that rank.
    fn verify_member(
        &self,
        msg: &[u8],
        signature_data: &MultiSignatureData,
        Ghost(bits): Ghost<Seq<bool>>,
        position: usize,
        rank: usize,
    ) -> (r: Verdict)
        requires
            rank < signature_data.signatures@.len(),
            position < self.public_keys@.len(),
            nth_set_bit(bits, rank as int) == position,
        ensures
            r == member_verdict(self@, msg@, signature_data@, bits, rank as int),
        decreases signature_data, 0int,
    {
        proof {
            reveal(member_verdict);
            lemma_multi_signature_view(*signature_data);
            lemma_signature_view(signature_data.signatures@[rank as int]);
            assert(self@.public_keys[position as int] == self.public_keys@[position as int]@);
        }
        let signature = &signature_data.signatures[rank];
        let member_data = match &signature.sum {
            Some(member_data) => member_data,
            None => {
                return Err(
                    SignatureVerificationError::InvalidSignatureData(
                        SignatureDataFault::MissingSignatureData,
                    ),
                );
            },
        };
        let member_key = match PublicKey::try_from(&self.public_keys[position]) {
            Ok(member_key) => member_key,
            Err(e) => {
                return Err(SignatureVerificationError::PublicKeyError(e));
            },
        };
        verify_signature(&member_key, msg, member_data)
    }

    /// Checks the signatures one by one, in the order of the set bits, and
    /// stops at the first that fails.
    fn verify_members(
        &self,
        msg: &[u8],
        signature_data: &MultiSignatureData,
        bit_array: &CompactBitArray,
    ) -> (r: Verdict)
        requires
            bit_array.wf(),
            bit_array@.len() == self.public_keys@.len(),
            count_true(bit_array@) <= signature_data.signatures@.len(),
        ensures
            r == first_failure(member_verdicts(self@, msg@, signature_data@, bit_array@)),
        decreases signature_data, 1int,
    {
        let size: usize = bit_array.len();
        let ghost bits = bit_array@;
        let ghost verdicts = member_verdicts(self@, msg@, signature_data@, bits);
        proof {
            lemma_member_verdicts(self@, msg@, signature_data@, bits);
        }
        let mut signature_index: usize = 0;
        let mut i: usize = 0;
        while i < size
            invariant
                verdicts.len() == count_true(bits),
                forall|rank: int|
                    0 <= rank < count_true(bits) ==> (#[trigger] verdicts[rank]) == member_verdict(
                        self@,
                        msg@,
                        signature_data@,
                        bits,
                        rank,
                    ),
                bit_array.wf(),
                bit_array@ == bits,
                bits.len() == size,
                self.public_keys@.len() == size,
                count_true(bits) <= signature_data.signatures@.len(),
                i <= size,
                signature_index == count_true(bits.take(i as int)),
                verdicts == member_verdicts(self@, msg@, signature_data@, bits),
                forall|k: int| 0 <= k < signature_index ==> (#[trigger] verdicts[k]) is Ok,
            decreases size - i,
        {
            proof {
                lemma_count_true_step(bits, i as int);
                lemma_count_true_monotonic(bits, i as int + 1, size as int);
                lemma_count_true_bound(bits);
                assert(bits.take(size as int) =~= bits);
            }
            if bit_array.get(i) {
                proof {
                    let p = nth_set_bit(bits, signature_index as int);
                    assert(0 <= i < bits.len() && bits[i as int] && count_true(bits.take(i as int))
                        == signature_index);
                    lemma_rank_decides_position(bits, p, i as int);
                }
                match self.verify_member(msg, signature_data, Ghost(bits), i, signature_index) {
                    Ok(()) => {},
                    Err(e) => {
                        proof {
                            lemma_first_failure_at(verdicts, signature_index as int);
                        }
                        return Err(e);
                    },
                }
                signature_index += 1;
            }
            i += 1;
        }
        proof {
            assert(bits.take(size as int) =~= bits);
            lemma_no_failure(verdicts);
        }
        Ok(())
    }

    /// Checks multisig data against `msg` under this key: see
    /// `multi_signature_verdict`.
    pub fn verify_multi_signature(&self, msg: &[u8], signature_data: &MultiSignatureData) -> (r:
        Verdict)
        ensures
            r == multi_signature_verdict(self@, msg@, signature_data@),
        decreases signature_data, 2int,
    {
        match self.check_layout(signature_data) {
            Ok(()) => {},
            Err(fault) => {
                return Err(SignatureVerificationError::InvalidSignatureData(fault));
            },
        }
        proof {
            lemma_multi_signature_view(*signature_data);
        }
        let bit_array = signature_data.bitarray.as_ref().unwrap();
        self.verify_members(msg, signature_data, bit_array)
    }
}

/// Checks signature data against `msg` under a key: see `signature_verdict`.
pub fn verify_signature(public_key: &PublicKey, msg: &[u8], signature: &SignatureData) -> (r:
    Verdict)
    ensures
        r == signature_verdict(public_key@, msg@, signature@),
    decreases signature, 0int,
{
    match (public_key, signature) {
        (PublicKey::Secp256k1(key), SignatureData::Single(data)) => key.verify_signature(
            msg,
            data.signature.as_slice(),
        ),
        (PublicKey::Ed25519(key), SignatureData::Single(data)) => key.verify_signature(
            msg,
            data.signature.as_slice(),
        ),
        (PublicKey::Multisig(key), SignatureData::Multi(data)) => key.verify_multi_signature(
            msg,
            data,
        ),
        _ => Err(SignatureVerificationError::InvalidPubKey),
    }
}

} // verus!
