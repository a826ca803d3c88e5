//! The client state of a solo machine: a sequence that counts accepted
//! headers, a marker that is set once misbehaviour is proved, and the
//! consensus state that signatures are checked against.

use crate::any::{Any, AnyView};
use crate::client_semantics::IClientState;
use crate::consensus_state::{
    required_public_key, ConsensusState, ConsensusStateError, ConsensusStateView,
};
use crate::crypto::{
    any_result_view, signature_verdict, verify_signature, SignatureVerificationError,
};
use crate::header::{encoded_header_sign_bytes, Header, HeaderError};
use crate::height::Height;
use crate::misbehaviour::{encoded_misbehaviour_sign_bytes, Misbehaviour, MisbehaviourError};
use crate::signature_data::{lemma_signature_view, SignatureData, SignatureDataView};
use crate::validation::{validation_result, BasicValidation};
use crate::wire::{
    client_state_encoding, decode_signature, encode_client_state, signature_decoding,
};
use vstd::prelude::*;

verus! {

/// Tag of a client state in a typed envelope.
pub const CLIENT_STATE_TYPE_URL: &'static str = "/ibc.lightclients.solomachine.v1.ClientState";

/// The state of a solo machine client.
#[derive(Clone, Debug, PartialEq, Eq)]
pub struct ClientState {
    /// The sequence that the next header must carry.
    pub sequence: u64,
    /// Zero while the client is active; the sequence of the misbehaviour once
    /// it is frozen.
    pub frozen_sequence: u64,
    pub consensus_state: Option<ConsensusState>,
    /// Whether governance may update the client.
    pub allow_update_after_proposal: bool,
}

/// Why a header is refused, apart from the state of the client itself.
#[derive(Clone, Debug, PartialEq, Eq)]
pub enum HeaderCheckError {
    /// The header's signature is no signature message.
    DecodeError,
    HeaderError(HeaderError),
    /// The header is older than the consensus state.
    InvalidTimestamp { header_timestamp: u64, consensus_state_timestamp: u64 },
    /// The header's signature message holds no signature data.
    MissingSignatureData,
    /// The header is not for the sequence that the client is at.
    SequenceMismatch { header_sequence: u64, state_sequence: u64 },
    /// The client is at the last sequence there is.
    SequenceOverflow,
    SignatureVerificationError(SignatureVerificationError),
}

/// Why a misbehaviour report is refused, apart from the state of the client
/// itself.
#[derive(Clone, Debug, PartialEq, Eq)]
pub enum MisbehaviourCheckError {
    ClientFrozen,
    /// One of the signatures is no signature message.
    DecodeError,
    MisbehaviourError(MisbehaviourError),
    /// The first signature message holds no signature data.
    MissingSignatureOneData,
    /// The second signature message holds no signature data.
    MissingSignatureTwoData,
    /// The first signature is older than the consensus state.
    SignatureOneInvalidTimestamp { signature_timestamp: u64, consensus_state_timestamp: u64 },
    /// The second signature is older than the consensus state.
    SignatureTwoInvalidTimestamp { signature_timestamp: u64, consensus_state_timestamp: u64 },
    SignatureVerificationError(SignatureVerificationError),
}

/// Why a client state is invalid or a transition is refused.
#[derive(Clone, Debug, PartialEq, Eq)]
pub enum ClientStateError {
    ConsensusStateError(ConsensusStateError),
    EncodeError,
    HeaderCheckError(HeaderCheckError),
    NoneConsensusState,
    MisbehaviourCheckError(MisbehaviourCheckError),
    ZeroSequence,
}

/// The mathematical content of a `ClientState`.
pub struct ClientStateView {
    pub sequence: u64,
    pub frozen_sequence: u64,
    pub consensus_state: Option<ConsensusStateView>,
    pub allow_update_after_proposal: bool,
}

impl View for ClientState {
    type V = ClientStateView;

    open spec fn view(&self) -> ClientStateView {
        ClientStateView {
            sequence: self.sequence,
            frozen_sequence: self.frozen_sequence,
            consensus_state: match self.consensus_state {
                Some(consensus_state) => Some(consensus_state@),
                None => None,
            },
            allow_update_after_proposal: self.allow_update_after_proposal,
        }
    }
}

/// The typed envelope of a client state: its tag and its encoding.
pub open spec fn any_of_client_state(state: ClientState) -> Result<AnyView, ClientStateError> {
    match client_state_encoding(state@) {
        Some(value) => Ok(AnyView { type_url: CLIENT_STATE_TYPE_URL@, value }),
        None => Err(ClientStateError::EncodeError),
    }
}

/// What is wrong with a header for a client in the given state, before any
/// signature is looked at: the header or the state is invalid, the header is
/// for another sequence, or it is older than the consensus state.
pub open spec fn header_protocol_error(state: ClientState, header: Header) -> Option<
    ClientStateError,
> {
    if let Some(e) = header.validation_error() {
        Some(ClientStateError::HeaderCheckError(HeaderCheckError::HeaderError(e)))
    } else if let Some(e) = state.validation_error() {
        Some(e)
    } else if header.sequence != state.sequence {
        Some(
            ClientStateError::HeaderCheckError(
                HeaderCheckError::SequenceMismatch {
                    header_sequence: header.sequence,
                    state_sequence: state.sequence,
                },
            ),
        )
    } else if header.timestamp < state.consensus_state->0.timestamp {
        Some(
            ClientStateError::HeaderCheckError(
                HeaderCheckError::InvalidTimestamp {
                    header_timestamp: header.timestamp,
                    consensus_state_timestamp: state.consensus_state->0.timestamp,
                },
            ),
        )
    } else {
        None
    }
}

/// What is wrong with the signature of a header for a client in the given
/// state: the bytes to sign cannot be made, the signature cannot be read,
/// the client's key cannot be read, or the signature is not one of those
/// bytes under that key.
pub open spec fn header_signature_error(state: ClientState, header: Header) -> Option<
    ClientStateError,
> {
    match encoded_header_sign_bytes(header) {
        Err(e) => Some(ClientStateError::HeaderCheckError(HeaderCheckError::HeaderError(e))),
        Ok(sign_bytes) => match signature_decoding(header.signature@) {
            None => Some(ClientStateError::HeaderCheckError(HeaderCheckError::DecodeError)),
            Some(message) => match message.sum {
                None => Some(
                    ClientStateError::HeaderCheckError(HeaderCheckError::MissingSignatureData),
                ),
                Some(data) => match required_public_key(state.consensus_state->0.public_key) {
                    Err(e) => Some(ClientStateError::ConsensusStateError(e)),
                    Ok(key) => match signature_verdict(key, sign_bytes, data) {
                        Err(e) => Some(
                            ClientStateError::HeaderCheckError(
                                HeaderCheckError::SignatureVerificationError(e),
                            ),
                        ),
                        Ok(()) => None,
                    },
                },
            },
        }
    }
}

/// Why a header is refused by a client in the given state, or `None` where it
/// is accepted.
pub open spec fn header_error(state: ClientState, header: Header) -> Option<ClientStateError> {
    if let Some(e) = header_protocol_error(state, header) {
        Some(e)
    } else if let Some(e) = header_signature_error(state, header) {
        Some(e)
    } else if state.sequence == u64::MAX {
        Some(ClientStateError::HeaderCheckError(HeaderCheckError::SequenceOverflow))
    } else {
        None
    }
}

/// The state after a header is accepted: the header's key, diversifier and
/// timestamp replace those of the consensus state, and the sequence moves on
/// by one.
pub open spec fn header_successor(state: ClientState, header: Header) -> ClientState {
    ClientState {
        sequence: (state.sequence + 1) as u64,
        frozen_sequence: state.frozen_sequence,
        consensus_state: Some(
            ConsensusState {
                public_key: header.new_public_key,
                diversifier: header.new_diversifier,
                timestamp: header.timestamp,
            },
        ),
        allow_update_after_proposal: state.allow_update_after_proposal,
    }
}

/// What is wrong with a misbehaviour report for a client in the given state,
/// before any signature is looked at: the report or the state is invalid, the
/// client is frozen already, or a signature is older than the consensus
/// state.
pub open spec fn misbehaviour_protocol_error(
    state: ClientState,
    misbehaviour: Misbehaviour,
) -> Option<ClientStateError> {
    if let Some(e) = misbehaviour.validation_error() {
        Some(ClientStateError::MisbehaviourCheckError(MisbehaviourCheckError::MisbehaviourError(e)))
    } else if let Some(e) = state.validation_error() {
        Some(e)
    } else if state.frozen_sequence != 0 {
        Some(ClientStateError::MisbehaviourCheckError(MisbehaviourCheckError::ClientFrozen))
    } else if misbehaviour.signature_one->0.timestamp < state.consensus_state->0.timestamp {
        Some(
            ClientStateError::MisbehaviourCheckError(
                MisbehaviourCheckError::SignatureOneInvalidTimestamp {
                    signature_timestamp: misbehaviour.signature_one->0.timestamp,
                    consensus_state_timestamp: state.consensus_state->0.timestamp,
                },
            ),
        )
    } else if misbehaviour.signature_two->0.timestamp < state.consensus_state->0.timestamp {
        Some(
            ClientStateError::MisbehaviourCheckError(
                MisbehaviourCheckError::SignatureTwoInvalidTimestamp {
                    signature_timestamp: misbehaviour.signature_two->0.timestamp,
                    consensus_state_timestamp: state.consensus_state->0.timestamp,
                },
            ),
        )
    } else {
        None
    }
}

/// The signature data that encoded signature messages hold, read in the order
/// given: the first message that cannot be read, or holds no data, decides.
pub open spec fn signature_pair(one: Seq<u8>, two: Seq<u8>) -> Result<
    (SignatureDataView, SignatureDataView),
    MisbehaviourCheckError,
> {
    match signature_decoding(one) {
        None => Err(MisbehaviourCheckError::DecodeError),
        Some(message_one) => match message_one.sum {
            None => Err(MisbehaviourCheckError::MissingSignatureOneData),
            Some(data_one) => match signature_decoding(two) {
                None => Err(MisbehaviourCheckError::DecodeError),
                Some(message_two) => match message_two.sum {
                    None => Err(MisbehaviourCheckError::MissingSignatureTwoData),
                    Some(data_two) => Ok((data_one, data_two)),
                },
            },
        },
    }
}

/// What is wrong with the signatures of a misbehaviour report for a client in
/// the given state: the bytes to sign cannot be made, a signature cannot be
/// read, the client's key cannot be read, or a signature is not one of its
/// bytes under that key. The first signature is checked first.
pub open spec fn misbehaviour_signature_error(
    state: ClientState,
    misbehaviour: Misbehaviour,
) -> Option<ClientStateError> {
    let consensus_state = state.consensus_state->0;
    match encoded_misbehaviour_sign_bytes(misbehaviour, consensus_state.diversifier@) {
        Err(e) => Some(
            ClientStateError::MisbehaviourCheckError(MisbehaviourCheckError::MisbehaviourError(e)),
        ),
        Ok(sign_bytes) => match signature_pair(
            misbehaviour.signature_one->0.signature@,
            misbehaviour.signature_two->0.signature@,
        ) {
            Err(e) => Some(ClientStateError::MisbehaviourCheckError(e)),
            Ok(data) => match required_public_key(consensus_state.public_key) {
                Err(e) => Some(ClientStateError::ConsensusStateError(e)),
                Ok(key) => match signature_verdict(key, sign_bytes.0, data.0) {
                    Err(e) => Some(
                        ClientStateError::MisbehaviourCheckError(
                            MisbehaviourCheckError::SignatureVerificationError(e),
                        ),
                    ),
                    Ok(()) => match signature_verdict(key, sign_bytes.1, data.1) {
                        Err(e) => Some(
                            ClientStateError::MisbehaviourCheckError(
                                MisbehaviourCheckError::SignatureVerificationError(e),
                            ),
                        ),
                        Ok(()) => None,
                    },
                },
            },
        },
    }
}

/// Why a misbehaviour report is refused by a client in the given state, or
/// `None` where it is accepted.
pub open spec fn misbehaviour_error(state: ClientState, misbehaviour: Misbehaviour) -> Option<
    ClientStateError,
> {
    if let Some(e) = misbehaviour_protocol_error(state, misbehaviour) {
        Some(e)
    } else {
        misbehaviour_signature_error(state, misbehaviour)
    }
}

/// The state after a misbehaviour report is accepted: the client is frozen at
/// the sequence of the report.
pub open spec fn misbehaviour_successor(state: ClientState, misbehaviour: Misbehaviour) -> ClientState {
    ClientState {
        sequence: state.sequence,
        frozen_sequence: misbehaviour.sequence,
        consensus_state: state.consensus_state,
        allow_update_after_proposal: state.allow_update_after_proposal,
    }
}

/// Reads the signature data out of an encoded signature message.
fn read_signature_data(bytes: &[u8]) -> (r: Option<Option<SignatureData>>)
    ensures
        match r {
            None => signature_decoding(bytes@) is None,
            Some(None) => signature_decoding(bytes@) matches Some(message) && message.sum is None,
            Some(Some(data)) => signature_decoding(bytes@) matches Some(message) && message.sum
                == Some(data@),
        },
{
    match decode_signature(bytes) {
        Err(_) => None,
        Ok(signature) => {
            proof {
                lemma_signature_view(signature);
            }
            Some(signature.sum)
        },
    }
}

impl ClientState {
    /// A client at sequence `last_sequence`, not frozen.
    pub fn new(
        last_sequence: u64,
        consensus_state: ConsensusState,
        allow_update_after_proposal: bool,
    ) -> (r: Self)
        ensures
            r == (ClientState {
                sequence: last_sequence,
                frozen_sequence: 0,
                consensus_state: Some(consensus_state),
                allow_update_after_proposal,
            }),
    {
        Self {
            sequence: last_sequence,
            frozen_sequence: 0,
            consensus_state: Some(consensus_state),
            allow_update_after_proposal,
        }
    }

    /// The latest height: the sequence, in revision zero.
    pub fn get_latest_height(&self) -> (r: Height)
        ensures
            r == (Height { revision_number: 0, revision_height: self.sequence }),
    {
        Height::new(0, self.sequence)
    }

    /// Whether misbehaviour has frozen the client.
    pub fn is_frozen(&self) -> (b: bool)
        ensures
            b == (self.frozen_sequence != 0),
    {
        self.frozen_sequence != 0
    }

    /// The height at which the client was frozen: the frozen sequence, in
    /// revision zero.
    pub fn get_frozen_height(&self) -> (r: Height)
        ensures
            r == (Height { revision_number: 0, revision_height: self.frozen_sequence }),
    {
        Height::new(0, self.frozen_sequence)
    }

    /// The consensus state, where there is one.
    pub fn get_consensus_state(&self) -> (r: Result<&ConsensusState, ClientStateError>)
        ensures
            match self.consensus_state {
                Some(consensus_state) => r == Ok::<&ConsensusState, ClientStateError>(
                    &consensus_state,
                ),
                None => r == Err::<&ConsensusState, ClientStateError>(
                    ClientStateError::NoneConsensusState,
                ),
            },
    {
        match &self.consensus_state {
            Some(consensus_state) => Ok(consensus_state),
            None => Err(ClientStateError::NoneConsensusState),
        }
    }

    /// The typed envelope of the state: its tag and its encoding.
    pub fn to_any(&self) -> (r: Result<Any, ClientStateError>)
        ensures
            any_result_view(r) == any_of_client_state(*self),
    {
        match encode_client_state(self) {
            Ok(value) => Ok(Any { type_url: CLIENT_STATE_TYPE_URL.to_owned(), value }),
            Err(_) => Err(ClientStateError::EncodeError),
        }
    }

    /// The tag of a client state in a typed envelope.
    pub fn type_url() -> (r: &'static str)
        ensures
            r@ == CLIENT_STATE_TYPE_URL@,
    {
        CLIENT_STATE_TYPE_URL
    }

    /// Checks the signature of a header against the consensus state.
    fn check_header_signature(&self, header: &Header) -> (r: Result<(), ClientStateError>)
        requires
            self.consensus_state is Some,
        ensures
            r == validation_result(header_signature_error(*self, *header)),
    {
        let consensus_state = self.consensus_state.as_ref().unwrap();
        let sign_bytes = match header.get_sign_bytes() {
            Ok(sign_bytes) => sign_bytes,
            Err(e) => {
                return Err(ClientStateError::HeaderCheckError(HeaderCheckError::HeaderError(e)));
            },
        };
        let data = match read_signature_data(header.signature.as_slice()) {
            None => {
                return Err(ClientStateError::HeaderCheckError(HeaderCheckError::DecodeError));
            },
            Some(None) => {
                return Err(
                    ClientStateError::HeaderCheckError(HeaderCheckError::MissingSignatureData),
                );
            },
            Some(Some(data)) => data,
        };
        let public_key = match consensus_state.get_public_key() {
            Ok(public_key) => public_key,
            Err(e) => {
                return Err(ClientStateError::ConsensusStateError(e));
            },
        };
        match verify_signature(&public_key, sign_bytes.as_slice(), &data) {
            Ok(()) => Ok(()),
            Err(e) => Err(
                ClientStateError::HeaderCheckError(HeaderCheckError::SignatureVerificationError(e)),
            ),
        }
    }

    /// Checks a header against the client before any signature is looked at.
    fn check_header_protocol(&self, header: &Header) -> (r: Result<(), ClientStateError>)
        ensures
            r == validation_result(header_protocol_error(*self, *header)),
            r is Ok ==> self.consensus_state is Some,
    {
        match header.validate_basic() {
            Ok(()) => {},
            Err(e) => {
                return Err(ClientStateError::HeaderCheckError(HeaderCheckError::HeaderError(e)));
            },
        }
        match self.validate_basic() {
            Ok(()) => {},
            Err(e) => {
                return Err(e);
            },
        }
        let consensus_state = self.consensus_state.as_ref().unwrap();
        if header.sequence != self.sequence {
            return Err(
                ClientStateError::HeaderCheckError(
                    HeaderCheckError::SequenceMismatch {
                        header_sequence: header.sequence,
                        state_sequence: self.sequence,
                    },
                ),
            );
        }
        if header.timestamp < consensus_state.timestamp {
            return Err(
                ClientStateError::HeaderCheckError(
                    HeaderCheckError::InvalidTimestamp {
                        header_timestamp: header.timestamp,
                        consensus_state_timestamp: consensus_state.timestamp,
                    },
                ),
            );
        }
        Ok(())
    }

    /// Checks a misbehaviour report against the client before any signature
    /// is looked at.
    fn check_misbehaviour_protocol(&self, misbehaviour: &Misbehaviour) -> (r: Result<
        (),
        ClientStateError,
    >)
        ensures
            r == validation_result(misbehaviour_protocol_error(*self, *misbehaviour)),
            r is Ok ==> self.consensus_state is Some && misbehaviour.signature_one is Some
                && misbehaviour.signature_two is Some,
    {
        match misbehaviour.validate_basic() {
            Ok(()) => {},
            Err(e) => {
                return Err(
                    ClientStateError::MisbehaviourCheckError(
                        MisbehaviourCheckError::MisbehaviourError(e),
                    ),
                );
            },
        }
        match self.validate_basic() {
            Ok(()) => {},
            Err(e) => {
                return Err(e);
            },
        }
        if self.is_frozen() {
            return Err(
                ClientStateError::MisbehaviourCheckError(MisbehaviourCheckError::ClientFrozen),
            );
        }
        let consensus_state = self.consensus_state.as_ref().unwrap();
        let signature_one = misbehaviour.signature_one.as_ref().unwrap();
        let signature_two = misbehaviour.signature_two.as_ref().unwrap();
        if signature_one.timestamp < consensus_state.timestamp {
            return Err(
                ClientStateError::MisbehaviourCheckError(
                    MisbehaviourCheckError::SignatureOneInvalidTimestamp {
                        signature_timestamp: signature_one.timestamp,
                        consensus_state_timestamp: consensus_state.timestamp,
                    },
                ),
            );
        }
        if signature_two.timestamp < consensus_state.timestamp {
            return Err(
                ClientStateError::MisbehaviourCheckError(
                    MisbehaviourCheckError::SignatureTwoInvalidTimestamp {
                        signature_timestamp: signature_two.timestamp,
                        consensus_state_timestamp: consensus_state.timestamp,
                    },
                ),
            );
        }
        Ok(())
    }

    /// Reads the signature data of the two signatures of a report.
    fn read_signature_pair(one: &[u8], two: &[u8]) -> (r: Result<
        (SignatureData, SignatureData),
        MisbehaviourCheckError,
    >)
        ensures
            match r {
                Ok(pair) => signature_pair(one@, two@) == Ok::<_, MisbehaviourCheckError>(
                    (pair.0@, pair.1@),
                ),
                Err(e) => signature_pair(one@, two@) == Err::<
                    (SignatureDataView, SignatureDataView),
                    _,
                >(e),
            },
    {
        let data_one = match read_signature_data(one) {
            None => {
                return Err(MisbehaviourCheckError::DecodeError);
            },
            Some(None) => {
                return Err(MisbehaviourCheckError::MissingSignatureOneData);
            },
            Some(Some(data)) => data,
        };
        let data_two = match read_signature_data(two) {
            None => {
                return Err(MisbehaviourCheckError::DecodeError);
            },
            Some(None) => {
                return Err(MisbehaviourCheckError::MissingSignatureTwoData);
            },
            Some(Some(data)) => data,
        };
        Ok((data_one, data_two))
    }

    /// Checks the two signatures of a misbehaviour report against the
    /// consensus state.
    fn check_misbehaviour_signatures(&self, misbehaviour: &Misbehaviour) -> (r: Result<
        (),
        ClientStateError,
    >)
        requires
            self.consensus_state is Some,
            misbehaviour.signature_one is Some,
            misbehaviour.signature_two is Some,
        ensures
            r == validation_result(misbehaviour_signature_error(*self, *misbehaviour)),
    {
        let consensus_state = self.consensus_state.as_ref().unwrap();
        let signature_one = misbehaviour.signature_one.as_ref().unwrap();
        let signature_two = misbehaviour.signature_two.as_ref().unwrap();
        let (sign_bytes_one, sign_bytes_two) = match misbehaviour.get_sign_bytes(
            consensus_state.diversifier.as_str(),
        ) {
            Ok(sign_bytes) => sign_bytes,
            Err(e) => {
                return Err(
                    ClientStateError::MisbehaviourCheckError(
                        MisbehaviourCheckError::MisbehaviourError(e),
                    ),
                );
            },
        };
        let (data_one, data_two) = match Self::read_signature_pair(
            signature_one.signature.as_slice(),
            signature_two.signature.as_slice(),
        ) {
            Ok(data) => data,
            Err(e) => {
                return Err(ClientStateError::MisbehaviourCheckError(e));
            },
        };
        let public_key = match consensus_state.get_public_key() {
            Ok(public_key) => public_key,
            Err(e) => {
                return Err(ClientStateError::ConsensusStateError(e));
            },
        };
        match verify_signature(&public_key, sign_bytes_one.as_slice(), &data_one) {
            Ok(()) => {},
            Err(e) => {
                return Err(
                    ClientStateError::MisbehaviourCheckError(
                        MisbehaviourCheckError::SignatureVerificationError(e),
                    ),
                );
            },
        }
        match verify_signature(&public_key, sign_bytes_two.as_slice(), &data_two) {
            Ok(()) => Ok(()),
            Err(e) => Err(
                ClientStateError::MisbehaviourCheckError(
                    MisbehaviourCheckError::SignatureVerificationError(e),
                ),
            ),
        }
    }
}

impl BasicValidation for ClientState {
    type Error = ClientStateError;

    /// The sequence is not zero, and the consensus state is there and valid.
    open spec fn validation_error(&self) -> Option<ClientStateError> {
        if self.sequence == 0 {
            Some(ClientStateError::ZeroSequence)
        } else {
            match self.consensus_state {
                None => Some(ClientStateError::NoneConsensusState),
                Some(consensus_state) => match consensus_state.validation_error() {
                    Some(e) => Some(ClientStateError::ConsensusStateError(e)),
                    None => None,
                },
            }
        }
    }

    fn validate_basic(&self) -> (r: Result<(), ClientStateError>) {
        if self.sequence == 0 {
            return Err(ClientStateError::ZeroSequence);
        }
        match &self.consensus_state {
            None => Err(ClientStateError::NoneConsensusState),
            Some(consensus_state) => match consensus_state.validate_basic() {
                Ok(()) => Ok(()),
                Err(e) => Err(ClientStateError::ConsensusStateError(e)),
            },
        }
    }
}

impl IClientState for ClientState {
    type ConsensusState = ConsensusState;

    type Error = ClientStateError;

    type Header = Header;

    type Misbehaviour = Misbehaviour;

    /// A new client is at sequence zero, not frozen, and open to updates by
    /// governance.
    open spec fn initial(consensus_state: ConsensusState) -> ClientState {
        ClientState {
            sequence: 0,
            frozen_sequence: 0,
            consensus_state: Some(consensus_state),
            allow_update_after_proposal: true,
        }
    }

    /// A header is accepted where `header_error` finds nothing wrong, and
    /// leads to `header_successor`. The frozen marker plays no part: a client
    /// that must not move on once frozen is asked `is_frozen` first.
    open spec fn after_header(&self, header: Header) -> Result<ClientState, ClientStateError> {
        match header_error(*self, header) {
            Some(e) => Err(e),
            None => Ok(header_successor(*self, header)),
        }
    }

    /// A misbehaviour report is accepted where `misbehaviour_error` finds
    /// nothing wrong, and leads to `misbehaviour_successor`.
    open spec fn after_misbehaviour(&self, misbehaviour: Misbehaviour) -> Result<
        ClientState,
        ClientStateError,
    > {
        match misbehaviour_error(*self, misbehaviour) {
            Some(e) => Err(e),
            None => Ok(misbehaviour_successor(*self, misbehaviour)),
        }
    }

    fn initialize(consensus_state: ConsensusState) -> (r: ClientState) {
        Self::new(0, consensus_state, true)
    }

    fn check_header_and_update_state(&mut self, header: Header) -> (r: Result<
        (),
        ClientStateError,
    >) {
        match self.check_header_protocol(&header) {
            Ok(()) => {},
            Err(e) => {
                return Err(e);
            },
        }
        match self.check_header_signature(&header) {
            Ok(()) => {},
            Err(e) => {
                return Err(e);
            },
        }
        let next_sequence: u64 = match self.sequence.checked_add(1) {
            Some(next_sequence) => next_sequence,
            None => {
                return Err(ClientStateError::HeaderCheckError(HeaderCheckError::SequenceOverflow));
            },
        };
        self.consensus_state = Some(
            ConsensusState {
                public_key: header.new_public_key,
                diversifier: header.new_diversifier,
                timestamp: header.timestamp,
            },
        );
        self.sequence = next_sequence;
        Ok(())
    }

    fn check_misbehaviour_and_update_state(&mut self, misbehaviour: Misbehaviour) -> (r: Result<
        (),
        ClientStateError,
    >) {
        match self.check_misbehaviour_protocol(&misbehaviour) {
            Ok(()) => {},
            Err(e) => {
                return Err(e);
            },
        }
        match self.check_misbehaviour_signatures(&misbehaviour) {
            Ok(()) => {},
            Err(e) => {
                return Err(e);
            },
        }
        self.frozen_sequence = misbehaviour.sequence;
        Ok(())
    }
}

/// An accepted header moves the sequence on by exactly one, leaves the frozen
/// marker as it was, and puts its own key, diversifier and timestamp in the
/// place of those of the consensus state.
pub proof fn lemma_accepted_header_advances(state: ClientState, header: Header)
    requires
        state.after_header(header) is Ok,
    ensures
        state.after_header(header)->Ok_0.sequence == state.sequence + 1,
        state.after_header(header)->Ok_0.frozen_sequence == state.frozen_sequence,
        state.after_header(header)->Ok_0.allow_update_after_proposal
            == state.allow_update_after_proposal,
        state.after_header(header)->Ok_0.consensus_state == Some(
            ConsensusState {
                public_key: header.new_public_key,
                diversifier: header.new_diversifier,
                timestamp: header.timestamp,
            },
        ),
{
}

/// A header is accepted exactly when it and the state are valid, it is for the
/// sequence that the client is at, it is no older than the consensus state,
/// its signature is one of its sign bytes under the key of the consensus
/// state, and the sequence can still move on.
pub proof fn lemma_header_accepted_iff(state: ClientState, header: Header)
    ensures
        state.after_header(header) is Ok <==> {
            &&& header.validation_error() is None
            &&& state.validation_error() is None
            &&& header.sequence == state.sequence
            &&& header.timestamp >= state.consensus_state->0.timestamp
            &&& encoded_header_sign_bytes(header) matches Ok(sign_bytes)
            &&& signature_decoding(header.signature@) matches Some(message)
            &&& message.sum matches Some(data)
            &&& required_public_key(state.consensus_state->0.public_key) matches Ok(key)
            &&& signature_verdict(key, sign_bytes, data) is Ok
            &&& state.sequence < u64::MAX
        },
{
}

/// A header that was accepted is refused from then on, as one for a sequence
/// that the client has left behind.
pub proof fn lemma_accepted_header_becomes_stale(state: ClientState, header: Header)
    requires
        state.after_header(header) is Ok,
    ensures
        state.after_header(header)->Ok_0.after_header(header) == Err::<
            ClientState,
            ClientStateError,
        >(
            ClientStateError::HeaderCheckError(
                HeaderCheckError::SequenceMismatch {
                    header_sequence: header.sequence,
                    state_sequence: (state.sequence + 1) as u64,
                },
            ),
        ),
{
    let next = state.after_header(header)->Ok_0;
    assert(header.validation_error() is None);
    assert(next.consensus_state->0.validation_error() is None);
    assert(next.validation_error() is None);
}

/// A header without a timestamp is refused for that, whatever its signature,
/// unless it is without a sequence too.
pub proof fn lemma_header_without_timestamp(state: ClientState, header: Header)
    requires
        header.sequence != 0,
        header.timestamp == 0,
    ensures
        header.validation_error() == Some(HeaderError::ZeroTimestamp),
        state.after_header(header) == Err::<ClientState, ClientStateError>(
            ClientStateError::HeaderCheckError(
                HeaderCheckError::HeaderError(HeaderError::ZeroTimestamp),
            ),
        ),
{
}

/// An accepted misbehaviour report freezes the client at the sequence of the
/// report and changes nothing else.
pub proof fn lemma_accepted_misbehaviour_freezes(state: ClientState, misbehaviour: Misbehaviour)
    requires
        state.after_misbehaviour(misbehaviour) is Ok,
    ensures
        state.after_misbehaviour(misbehaviour)->Ok_0.frozen_sequence == misbehaviour.sequence,
        state.after_misbehaviour(misbehaviour)->Ok_0.frozen_sequence != 0,
        state.after_misbehaviour(misbehaviour)->Ok_0.sequence == state.sequence,
        state.after_misbehaviour(misbehaviour)->Ok_0.consensus_state == state.consensus_state,
        state.after_misbehaviour(misbehaviour)->Ok_0.allow_update_after_proposal
            == state.allow_update_after_proposal,
{
}

/// A misbehaviour report is accepted exactly when it and the state are valid,
/// the client is not frozen, neither signature is older than the consensus
/// state, and each signature is one of its own sign bytes under the key of the
/// consensus state. A valid report holds two signatures over different data.
pub proof fn lemma_misbehaviour_accepted_iff(state: ClientState, misbehaviour: Misbehaviour)
    ensures
        state.after_misbehaviour(misbehaviour) is Ok <==> {
            &&& misbehaviour.validation_error() is None
            &&& state.validation_error() is None
            &&& state.frozen_sequence == 0
            &&& misbehaviour.signature_one->0.timestamp >= state.consensus_state->0.timestamp
            &&& misbehaviour.signature_two->0.timestamp >= state.consensus_state->0.timestamp
            &&& encoded_misbehaviour_sign_bytes(
                misbehaviour,
                state.consensus_state->0.diversifier@,
            ) matches Ok(sign_bytes)
            &&& signature_pair(
                misbehaviour.signature_one->0.signature@,
                misbehaviour.signature_two->0.signature@,
            ) matches Ok(data)
            &&& required_public_key(state.consensus_state->0.public_key) matches Ok(key)
            &&& signature_verdict(key, sign_bytes.0, data.0) is Ok
            &&& signature_verdict(key, sign_bytes.1, data.1) is Ok
        },
        misbehaviour.validation_error() is None ==> misbehaviour.signature_one->0.data@
            != misbehaviour.signature_two->0.data@,
{
}

/// Once a misbehaviour report was accepted, every further report is refused:
/// a valid one because the client is frozen.
pub proof fn lemma_frozen_client_refuses_misbehaviour(
    state: ClientState,
    first: Misbehaviour,
    second: Misbehaviour,
)
    requires
        state.after_misbehaviour(first) is Ok,
    ensures
        state.after_misbehaviour(first)->Ok_0.after_misbehaviour(second) is Err,
        second.validation_error() is None ==> state.after_misbehaviour(
            first,
        )->Ok_0.after_misbehaviour(second) == Err::<ClientState, ClientStateError>(
            ClientStateError::MisbehaviourCheckError(MisbehaviourCheckError::ClientFrozen),
        ),
{
    let next = state.after_misbehaviour(first)->Ok_0;
    assert(first.validation_error() is None);
    assert(next.frozen_sequence != 0);
    assert(next.validation_error() == state.validation_error());
}

/// A frozen client stays frozen whatever headers it accepts: the header path
/// never touches the frozen marker.
pub proof fn lemma_header_keeps_client_frozen(state: ClientState, header: Header)
    requires
        state.frozen_sequence != 0,
        state.after_header(header) is Ok,
    ensures
        state.after_header(header)->Ok_0.frozen_sequence == state.frozen_sequence,
        state.after_header(header)->Ok_0.frozen_sequence != 0,
{
}

} // verus!
