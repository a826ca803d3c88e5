//! Signature data as it travels with a header or a misbehaviour report: one
//! signature of a single key, or the signatures of members of a multisig key
//! with a bit array that says which members signed.

use crate::bit_array::{BitArrayFields, CompactBitArray};
use vstd::prelude::*;

verus! {

/// The signature of a single signer.
#[derive(Clone, Debug, PartialEq, Eq)]
pub struct SingleSignatureData {
    /// The signing mode, as its number.
    pub mode: i32,
    /// The raw signature bytes.
    pub signature: Vec<u8>,
}

/// The signatures of some members of a multisig key.
#[derive(Debug, PartialEq, Eq)]
pub struct MultiSignatureData {
    /// Which members of the key signed.
    pub bitarray: Option<CompactBitArray>,
    /// One entry for each member that signed, in the order of the members.
    pub signatures: Vec<Signature>,
}

/// Signature data of either kind.
#[derive(Debug, PartialEq, Eq)]
pub enum SignatureData {
    Single(SingleSignatureData),
    Multi(MultiSignatureData),
}

/// A signature message: signature data that may be missing.
#[derive(Debug, PartialEq, Eq)]
pub struct Signature {
    pub sum: Option<SignatureData>,
}

/// The mathematical content of a `MultiSignatureData`.
pub struct MultiSignatureDataView {
    pub bitarray: Option<BitArrayFields>,
    pub signatures: Seq<SignatureView>,
}

/// The mathematical content of a `SignatureData`.
pub enum SignatureDataView {
    Single { mode: i32, signature: Seq<u8> },
    Multi(MultiSignatureDataView),
}

/// The mathematical content of a `Signature`.
pub struct SignatureView {
    pub sum: Option<SignatureDataView>,
}

impl SignatureData {
    /// The signature of a single signer.
    pub fn single(mode: i32, signature: Vec<u8>) -> (r: SignatureData)
        ensures
            r == SignatureData::Single(SingleSignatureData { mode, signature }),
    {
        SignatureData::Single(SingleSignatureData { mode, signature })
    }

    /// The signatures of some members of a multisig key.
    pub fn multi(bitarray: Option<CompactBitArray>, signatures: Vec<Signature>) -> (r:
        SignatureData)
        ensures
            r == SignatureData::Multi(MultiSignatureData { bitarray, signatures }),
    {
        SignatureData::Multi(MultiSignatureData { bitarray, signatures })
    }
}

/// The content of a signature message.
pub open spec fn signature_view(signature: Signature) -> SignatureView
    decreases signature,
{
    SignatureView {
        sum: match signature.sum {
            Some(data) => Some(signature_data_view(data)),
            None => None,
        },
    }
}

/// The content of signature data.
pub open spec fn signature_data_view(data: SignatureData) -> SignatureDataView
    decreases data,
{
    match data {
        SignatureData::Single(single) => SignatureDataView::Single {
            mode: single.mode,
            signature: single.signature@,
        },
        SignatureData::Multi(multi) => SignatureDataView::Multi(multi_signature_view(multi)),
    }
}

/// The content of multisig data.
pub open spec fn multi_signature_view(data: MultiSignatureData) -> MultiSignatureDataView
    decreases data,
{
    MultiSignatureDataView {
        bitarray: match data.bitarray {
            Some(b) => Some(b.fields()),
            None => None,
        },
        signatures: Seq::new(
            data.signatures@.len(),
            |i: int|
                if 0 <= i < data.signatures@.len() {
                    signature_view(data.signatures@[i])
                } else {
                    SignatureView { sum: None }
                },
        ),
    }
}

impl View for SingleSignatureData {
    type V = SignatureDataView;

    open spec fn view(&self) -> SignatureDataView {
        SignatureDataView::Single { mode: self.mode, signature: self.signature@ }
    }
}

impl View for MultiSignatureData {
    type V = MultiSignatureDataView;

    open spec fn view(&self) -> MultiSignatureDataView {
        multi_signature_view(*self)
    }
}

impl View for SignatureData {
    type V = SignatureDataView;

    open spec fn view(&self) -> SignatureDataView {
        signature_data_view(*self)
    }
}

impl View for Signature {
    type V = SignatureView;

    open spec fn view(&self) -> SignatureView {
        signature_view(*self)
    }
}

/// The view of multisig data, field by field.
pub proof fn lemma_multi_signature_view(data: MultiSignatureData)
    ensures
        data@.signatures.len() == data.signatures@.len(),
        forall|i: int|
            0 <= i < data.signatures@.len() ==> data@.signatures[i] == (
            #[trigger] data.signatures@[i])@,
        data.bitarray matches Some(b) ==> data@.bitarray == Some(b.fields()),
        data.bitarray is None ==> data@.bitarray is None,
{
}

/// The view of a signature message that holds data.
pub proof fn lemma_signature_view(signature: Signature)
    ensures
        signature.sum matches Some(data) ==> signature@.sum == Some(data@),
        signature.sum is None ==> signature@.sum is None,
{
}

impl Clone for MultiSignatureData {
    /// A copy with the same bit array and the same signatures.
    fn clone(&self) -> (r: Self)
        ensures
            r@ == self@,
        decreases self,
    {
        let mut signatures: Vec<Signature> = Vec::new();
        let mut i: usize = 0;
        while i < self.signatures.len()
            invariant
                i <= self.signatures@.len(),
                signatures@.len() == i,
                forall|k: int| 0 <= k < i ==> (#[trigger] signatures@[k])@ == self.signatures@[k]@,
            decreases self.signatures@.len() - i,
        {
            signatures.push(self.signatures[i].clone());
            i += 1;
        }
        let bitarray = match &self.bitarray {
            Some(b) => Some(
                CompactBitArray { extra_bits_stored: b.extra_bits_stored, elems: b.elems.clone() },
            ),
            None => None,
        };
        let r = MultiSignatureData { bitarray, signatures };
        proof {
            lemma_multi_signature_view(r);
            lemma_multi_signature_view(*self);
            assert(r@.signatures =~= self@.signatures);
        }
        r
    }
}

impl Clone for SignatureData {
    /// A copy of the same kind with the same content.
    fn clone(&self) -> (r: Self)
        ensures
            r@ == self@,
        decreases self,
    {
        match self {
            SignatureData::Single(single) => SignatureData::Single(
                SingleSignatureData { mode: single.mode, signature: single.signature.clone() },
            ),
            SignatureData::Multi(multi) => SignatureData::Multi(multi.clone()),
        }
    }
}

impl Clone for Signature {
    /// A copy with the same signature data, or without any.
    fn clone(&self) -> (r: Self)
        ensures
            r@ == self@,
        decreases self,
    {
        match &self.sum {
            Some(data) => Signature { sum: Some(data.clone()) },
            None => Signature { sum: None },
        }
    }
}

} // verus!
