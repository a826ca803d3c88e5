use solo_machine::hash_validation::HashValidationError;
use solo_machine::tendermint::{ConsensusState, ConsensusStateError, MerkleRoot, Timestamp};
use solo_machine::validation::BasicValidation;

fn state() -> ConsensusState {
    ConsensusState {
        timestamp: Some(Timestamp { seconds: 1, nanos: 0 }),
        root: Some(MerkleRoot { hash: vec![1, 2, 3] }),
        next_validators_hash: vec![0; 32],
    }
}

#[test]
fn valid_tendermint_consensus_state_passes() {
    assert_eq!(state().validate_basic(), Ok(()));
    let without_hash = ConsensusState { next_validators_hash: vec![], ..state() };
    assert_eq!(without_hash.validate_basic(), Ok(()));
}

#[test]
fn tendermint_consensus_state_needs_a_root() {
    let no_root = ConsensusState { root: None, ..state() };
    assert_eq!(no_root.validate_basic(), Err(ConsensusStateError::NoneRoot));
    let empty_root = ConsensusState { root: Some(MerkleRoot { hash: vec![] }), ..state() };
    assert_eq!(empty_root.validate_basic(), Err(ConsensusStateError::EmptyRoot));
}

#[test]
fn tendermint_consensus_state_needs_a_hash_of_the_right_length() {
    let short = ConsensusState { next_validators_hash: vec![0; 20], ..state() };
    assert_eq!(
        short.validate_basic(),
        Err(ConsensusStateError::HashValidationError(HashValidationError::InvalidLength {
            expected: 32,
            actual: 20,
        }))
    );
}

#[test]
fn tendermint_consensus_state_needs_a_time_after_the_epoch() {
    let no_time = ConsensusState { timestamp: None, ..state() };
    assert_eq!(no_time.validate_basic(), Err(ConsensusStateError::NoneTimestamp));
    for seconds in [0, -1, i64::MIN] {
        let early =
            ConsensusState { timestamp: Some(Timestamp { seconds, nanos: 5 }), ..state() };
        assert_eq!(early.validate_basic(), Err(ConsensusStateError::NegativeTimestamp));
    }
}

#[test]
fn tendermint_consensus_state_rules_are_checked_in_order() {
    let all_wrong = ConsensusState { timestamp: None, root: None, next_validators_hash: vec![1] };
    assert_eq!(all_wrong.validate_basic(), Err(ConsensusStateError::NoneRoot));
    let hash_and_time_wrong = ConsensusState {
        timestamp: None,
        root: Some(MerkleRoot { hash: vec![1] }),
        next_validators_hash: vec![1],
    };
    assert_eq!(
        hash_and_time_wrong.validate_basic(),
        Err(ConsensusStateError::HashValidationError(HashValidationError::InvalidLength {
            expected: 32,
            actual: 1,
        }))
    );
}
