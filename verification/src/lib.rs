//! Client-side validation core for cross-chain sanad transfers.
//!
//! The crate gathers the verified logic of the protocol: hashing, Merkle
//! inclusion and canonical encoding; proof bundles, their verification and
//! the canonical validation pipeline; the Sui and Solana chain verifiers;
//! replay protection; quorum decisions over RPC observations; runtime
//! policy, health and circuit breaking; the transfer coordinator's state
//! machine; and the wallet and explorer bookkeeping.

pub mod adapter_registry;
pub mod bundle_verifier;
pub mod bytes;
pub mod cbor;
pub mod certification;
pub mod chain_checks;
pub mod clock;
pub mod dag;
pub mod error;
pub mod ethereum_mint;
pub mod event_bus;
pub mod event_store;
pub mod explorer;
pub mod finality_anchor;
pub mod hash;
pub mod lease;
pub mod merkle;
pub mod policy;
pub mod proof_bundle;
pub mod proof_pipeline;
pub mod provenance;
pub mod ranking;
pub mod replay_db;
pub mod replay_record;
pub mod rpc;
pub mod runtime_error;
pub mod runtime_mode;
pub mod seal;
pub mod signature;
pub mod solana_verifier;
pub mod strmap;
pub mod sui_verifier;
pub mod text;
pub mod transfer_coordinator;
pub mod trust_package;
pub mod verified;
pub mod wallet;
