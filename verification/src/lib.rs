//! Verification core of a solo machine light client: a single signing
//! authority (one key or a threshold multisig) whose signed statements drive
//! a sequence-numbered client state.
//!
//! The client state ([`client_state`]) accepts headers, which replace the key
//! it trusts, and misbehaviour reports, which freeze it. Both are checked in
//! two stages: structural rules first ([`validation`]), then the signature
//! over the canonical bytes ([`sign_bytes`]) under the current public key
//! ([`crypto`]). A transition applies in full or not at all.
//!
//! Every function of the library is verified against its contract, except the
//! calls into other crates, which are gathered in [`wire`] (message encoding),
//! [`signing`] (elliptic curves), [`digest`] (hashes and hexadecimal text) and
//! at one place each in [`text`] and [`identifier_validation`].

pub mod any;
pub mod bit_array;
pub mod client_semantics;
pub mod client_state;
pub mod consensus_state;
pub mod crypto;
pub mod digest;
pub mod hash_validation;
pub mod header;
pub mod height;
pub mod identifier_validation;
pub mod misbehaviour;
pub mod sign_bytes;
pub mod signature_and_data;
pub mod signature_data;
pub mod signing;
pub mod solo_machine;
pub mod tendermint;
pub mod text;
pub mod validation;
pub mod wire;
