//! Trust packages: signed checkpoints for offline verification.

use vstd::prelude::*;

verus! {

/// A signed package that establishes a trusted checkpoint for offline
/// verification.
#[derive(Clone, Debug)]
pub struct TrustPackage {
    /// The chain the package applies to.
    pub chain_id: String,
    /// Trusted checkpoint hash.
    pub trusted_checkpoint: crate::hash::Hash,
    /// Height of the checkpoint.
    pub checkpoint_height: u64,
    /// Validator commitment payload.
    pub validator_commitment: Vec<u8>,
    /// When the package was generated, in seconds since the Unix epoch.
    pub generated_at_secs: i64,
    /// When the package expires, in seconds since the Unix epoch.
    pub expires_at_secs: i64,
    /// Raw package signature bytes.
    pub package_signature: Vec<u8>,
}

/// What offline verification with a trust package needs.
#[derive(Clone, Debug)]
pub struct OfflineVerificationContext {
    /// The trust package.
    pub trust_package: TrustPackage,
    /// The effective verification time, in seconds since the Unix epoch.
    pub verification_time_secs: i64,
}

} // verus!
