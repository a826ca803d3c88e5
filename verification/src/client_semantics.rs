//! What every light client offers: a consensus state with a timestamp, and a
//! client state that headers advance and misbehaviour freezes.

use vstd::prelude::*;

verus! {

/// A consensus state.
pub trait IConsensusState {
    /// The time of the state.
    spec fn timestamp_of(&self) -> u64;

    /// The time of the state, as Unix seconds.
    fn get_timestamp(&self) -> (r: u64)
        ensures
            r == self.timestamp_of(),
    ;
}

/// A client state and its two transitions. Each transition either applies in
/// full or leaves the state as it was.
pub trait IClientState: Sized {
    type ConsensusState;

    type Error;

    type Header;

    type Misbehaviour;

    /// The state of a new client.
    spec fn initial(consensus_state: Self::ConsensusState) -> Self;

    /// The state that a header leads to, or why the header is refused.
    spec fn after_header(&self, header: Self::Header) -> Result<Self, Self::Error>;

    /// The state that a misbehaviour report leads to, or why the report is
    /// refused.
    spec fn after_misbehaviour(&self, misbehaviour: Self::Misbehaviour) -> Result<Self, Self::Error>;

    /// A new client with the given consensus state.
    fn initialize(consensus_state: Self::ConsensusState) -> (r: Self)
        ensures
            r == Self::initial(consensus_state),
    ;

    /// Checks a header and, where it is accepted, moves to the state it leads
    /// to. A refused header changes nothing.
    fn check_header_and_update_state(&mut self, header: Self::Header) -> (r: Result<(), Self::Error>)
        ensures
            match old(self).after_header(header) {
                Ok(next) => r is Ok && *final(self) == next,
                Err(e) => r == Err::<(), Self::Error>(e) && *final(self) == *old(self),
            },
    ;

    /// Checks a misbehaviour report and, where it is accepted, moves to the
    /// state it leads to. A refused report changes nothing.
    fn check_misbehaviour_and_update_state(&mut self, misbehaviour: Self::Misbehaviour) -> (r:
        Result<(), Self::Error>)
        ensures
            match old(self).after_misbehaviour(misbehaviour) {
                Ok(next) => r is Ok && *final(self) == next,
                Err(e) => r == Err::<(), Self::Error>(e) && *final(self) == *old(self),
            },
    ;
}

} // verus!
