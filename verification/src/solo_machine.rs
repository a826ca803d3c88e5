//! A solo machine as a whole: its client state, and the message that
//! registers it with a counterparty.

use crate::any::{Any, AnyView};
use crate::client_state::{any_of_client_state, ClientState, ClientStateError};
use crate::consensus_state::{any_of_consensus_state, required_public_key, ConsensusStateError};
use crate::crypto::{address_of, AddressError};
use vstd::prelude::*;

verus! {

/// A solo machine.
#[derive(Clone, Debug, PartialEq, Eq)]
pub struct SoloMachine {
    pub client_state: ClientState,
}

/// The message that creates a client: the two states in their typed
/// envelopes, and the address of the signer.
#[derive(Clone, Debug, PartialEq, Eq)]
pub struct MsgCreateClient {
    pub client_state: Option<Any>,
    pub consensus_state: Option<Any>,
    pub signer: String,
}

/// The mathematical content of a `MsgCreateClient`.
pub struct MsgCreateClientView {
    pub client_state: Option<AnyView>,
    pub consensus_state: Option<AnyView>,
    pub signer: Seq<char>,
}

impl View for MsgCreateClient {
    type V = MsgCreateClientView;

    open spec fn view(&self) -> MsgCreateClientView {
        MsgCreateClientView {
            client_state: crate::any::option_any_view(self.client_state),
            consensus_state: crate::any::option_any_view(self.consensus_state),
            signer: self.signer@,
        }
    }
}

/// Why a solo machine has no message to create a client with.
#[derive(Clone, Debug, PartialEq, Eq)]
pub enum SoloMachineError {
    AddressError(AddressError),
    ClientStateError(ClientStateError),
    ConsensusStateError(ConsensusStateError),
}

/// The message that creates a client for a machine in the given state: the
/// signer is the address of the key of the consensus state.
pub open spec fn create_client_message(state: ClientState) -> Result<
    MsgCreateClientView,
    SoloMachineError,
> {
    match state.consensus_state {
        None => Err(SoloMachineError::ClientStateError(ClientStateError::NoneConsensusState)),
        Some(consensus_state) => match required_public_key(consensus_state.public_key) {
            Err(e) => Err(SoloMachineError::ConsensusStateError(e)),
            Ok(key) => match address_of(key) {
                Err(e) => Err(SoloMachineError::AddressError(e)),
                Ok(signer) => match any_of_client_state(state) {
                    Err(e) => Err(SoloMachineError::ClientStateError(e)),
                    Ok(client_state) => match any_of_consensus_state(consensus_state) {
                        Err(e) => Err(SoloMachineError::ConsensusStateError(e)),
                        Ok(consensus_state) => Ok(
                            MsgCreateClientView {
                                client_state: Some(client_state),
                                consensus_state: Some(consensus_state),
                                signer,
                            },
                        ),
                    },
                },
            },
        },
    }
}

/// The content of a result that holds a message.
pub open spec fn message_result_view<E>(r: Result<MsgCreateClient, E>) -> Result<
    MsgCreateClientView,
    E,
> {
    match r {
        Ok(message) => Ok(message@),
        Err(e) => Err(e),
    }
}

impl SoloMachine {
    /// The message that registers this machine with a counterparty.
    pub fn get_msg_create_client(&self) -> (r: Result<MsgCreateClient, SoloMachineError>)
        ensures
            message_result_view(r) == create_client_message(self.client_state),
    {
        let consensus_state = match self.client_state.get_consensus_state() {
            Ok(consensus_state) => consensus_state,
            Err(e) => {
                return Err(SoloMachineError::ClientStateError(e));
            },
        };
        let public_key = match consensus_state.get_public_key() {
            Ok(public_key) => public_key,
            Err(e) => {
                return Err(SoloMachineError::ConsensusStateError(e));
            },
        };
        let address = match public_key.address() {
            Ok(address) => address,
            Err(e) => {
                return Err(SoloMachineError::AddressError(e));
            },
        };
        let client_state = match self.client_state.to_any() {
            Ok(any) => any,
            Err(e) => {
                return Err(SoloMachineError::ClientStateError(e));
            },
        };
        let consensus_state = match consensus_state.to_any() {
            Ok(any) => any,
            Err(e) => {
                return Err(SoloMachineError::ConsensusStateError(e));
            },
        };
        Ok(
            MsgCreateClient {
                client_state: Some(client_state),
                consensus_state: Some(consensus_state),
                signer: address,
            },
        )
    }
}

} // verus!
