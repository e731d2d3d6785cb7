//! What a chain verifier established about a proof: the assurance level,
//! the strength of each verified component, and the per-chain minimums that
//! an accepted proof has to meet.

use vstd::prelude::*;
use vstd::string::StringExecFns;

verus! {

/// How strongly a proof was verified, weakest first.
#[derive(Clone, Copy, Debug, PartialEq, Eq, Structural)]
pub enum VerificationAssurance {
    /// Only the shape of the proof was checked.
    StructureChecked,
    /// Some of the cryptographic material was checked.
    PartialCryptographic,
    /// All cryptographic material was checked.
    Cryptographic,
    /// Checked and bound to the chain's consensus.
    ConsensusBound,
}

/// The position of an assurance level in its order, weakest first.
pub open spec fn assurance_rank(a: VerificationAssurance) -> u8 {
    match a {
        VerificationAssurance::StructureChecked => 0,
        VerificationAssurance::PartialCryptographic => 1,
        VerificationAssurance::Cryptographic => 2,
        VerificationAssurance::ConsensusBound => 3,
    }
}

impl VerificationAssurance {
    /// The position of the level in its order, weakest first.
    pub fn rank(&self) -> (r: u8)
        ensures
            r == assurance_rank(*self),
    {
        match self {
            VerificationAssurance::StructureChecked => 0,
            VerificationAssurance::PartialCryptographic => 1,
            VerificationAssurance::Cryptographic => 2,
            VerificationAssurance::ConsensusBound => 3,
        }
    }
}

/// How a transaction's inclusion in a block was shown, weakest first.
#[derive(Clone, Copy, Debug, PartialEq, Eq, Structural)]
pub enum InclusionStrength {
    /// Inclusion was not shown.
    Absent,
    /// A checksum over the block data matched.
    Checksum,
    /// A Merkle path to the block's root verified.
    MerklePath,
    /// A Merkle path verified against an anchored root.
    AnchoredMerklePath,
}

/// The position of an inclusion strength in its order, weakest first.
pub open spec fn inclusion_rank(s: InclusionStrength) -> u8 {
    match s {
        InclusionStrength::Absent => 0,
        InclusionStrength::Checksum => 1,
        InclusionStrength::MerklePath => 2,
        InclusionStrength::AnchoredMerklePath => 3,
    }
}

/// Whether inclusion strength `a` is strictly stronger than `b`.
pub open spec fn stronger_inclusion(a: InclusionStrength, b: InclusionStrength) -> bool {
    inclusion_rank(a) > inclusion_rank(b)
}

impl InclusionStrength {
    /// The position of the strength in its order, weakest first.
    pub fn rank(&self) -> (r: u8)
        ensures
            r == inclusion_rank(*self),
    {
        match self {
            InclusionStrength::Absent => 0,
            InclusionStrength::Checksum => 1,
            InclusionStrength::MerklePath => 2,
            InclusionStrength::AnchoredMerklePath => 3,
        }
    }
}

/// Whether inclusion strength `a` is strictly stronger than `b`.
pub fn is_stronger_inclusion(a: &InclusionStrength, b: &InclusionStrength) -> (r: bool)
    ensures
        r == stronger_inclusion(*a, *b),
{
    a.rank() > b.rank()
}

/// How final the block holding a proof was shown to be.
#[derive(Clone, Copy, Debug, PartialEq, Eq, Structural)]
pub enum FinalityStrength {
    /// Finality was not shown.
    Absent,
    /// The block is buried under this many confirmations.
    Probabilistic {
        /// Number of confirmations observed.
        confirmations: u64,
    },
    /// The chain's consensus finalised the block.
    Deterministic,
}

/// Whether finality `a` replaces `b` as the stronger one. Deterministic
/// finality always does; between confirmation counts the larger one does.
pub open spec fn stronger_finality(a: FinalityStrength, b: FinalityStrength) -> bool {
    match a {
        FinalityStrength::Deterministic => true,
        FinalityStrength::Probabilistic { confirmations: x } => match b {
            FinalityStrength::Deterministic => false,
            FinalityStrength::Probabilistic { confirmations: y } => x > y,
            FinalityStrength::Absent => true,
        },
        FinalityStrength::Absent => false,
    }
}

/// Whether finality `a` replaces `b` as the stronger one.
pub fn is_stronger_finality(a: &FinalityStrength, b: &FinalityStrength) -> (r: bool)
    ensures
        r == stronger_finality(*a, *b),
{
    match a {
        FinalityStrength::Deterministic => true,
        FinalityStrength::Probabilistic { confirmations: x } => match b {
            FinalityStrength::Deterministic => false,
            FinalityStrength::Probabilistic { confirmations: y } => *x > *y,
            FinalityStrength::Absent => true,
        },
        FinalityStrength::Absent => false,
    }
}

/// The components of a proof that a verifier established.
#[derive(Clone, Copy, Debug, PartialEq, Eq, Structural)]
pub struct VerifiedComponents {
    /// How inclusion was shown.
    pub inclusion: InclusionStrength,
    /// How finality was shown.
    pub finality: FinalityStrength,
    /// Whether the seal was checked against replay.
    pub replay_checked: bool,
    /// Whether the owner's signature verified.
    pub ownership_signature: bool,
}

/// Why a check of a proof failed.
#[derive(Clone, Debug, PartialEq, Eq)]
pub enum VerificationFailure {
    /// Material the check needs is missing.
    MissingData(String),
    /// A Merkle path does not lead to the expected root.
    InvalidMerklePath,
    /// The block is not yet final.
    FinalityNotReached {
        /// Confirmations required.
        required: u64,
        /// Confirmations observed.
        actual: u64,
    },
    /// The chain lacks a capability the proof asks for.
    UnsupportedCapability(String),
    /// The seal was already consumed.
    ReplayDetected,
    /// The owner's signature is missing or malformed.
    InvalidOwnershipSignature,
}

/// The text of a failure.
pub open spec fn failure_text(f: VerificationFailure) -> Seq<char> {
    match f {
        VerificationFailure::MissingData(m) => "Missing data: "@ + m@,
        VerificationFailure::InvalidMerklePath => "Invalid Merkle path"@,
        VerificationFailure::FinalityNotReached { required, actual } => "Finality not reached: required "@
            + crate::text::decimal(required as nat) + ", actual "@ + crate::text::decimal(actual as nat),
        VerificationFailure::UnsupportedCapability(m) => "Unsupported capability: "@ + m@,
        VerificationFailure::ReplayDetected => "Replay detected"@,
        VerificationFailure::InvalidOwnershipSignature => "Invalid ownership signature"@,
    }
}

impl VerificationFailure {
    /// The text of the failure.
    pub fn to_text(&self) -> (s: String)
        ensures
            s@ == failure_text(*self),
    {
        match self {
            VerificationFailure::MissingData(m) => {
                let mut s = String::from_str("Missing data: ");
                s.append(m.as_str());
                s
            },
            VerificationFailure::InvalidMerklePath => String::from_str("Invalid Merkle path"),
            VerificationFailure::FinalityNotReached { required, actual } => {
                let mut s = String::from_str("Finality not reached: required ");
                crate::text::push_decimal(&mut s, *required);
                s.append(", actual ");
                crate::text::push_decimal(&mut s, *actual);
                s
            },
            VerificationFailure::UnsupportedCapability(m) => {
                let mut s = String::from_str("Unsupported capability: ");
                s.append(m.as_str());
                s
            },
            VerificationFailure::ReplayDetected => String::from_str("Replay detected"),
            VerificationFailure::InvalidOwnershipSignature => String::from_str(
                "Invalid ownership signature",
            ),
        }
    }

    /// A copy of the failure.
    pub fn duplicate(&self) -> (f: VerificationFailure)
        ensures
            f == *self,
    {
        match self {
            VerificationFailure::MissingData(m) => VerificationFailure::MissingData(m.clone()),
            VerificationFailure::InvalidMerklePath => VerificationFailure::InvalidMerklePath,
            VerificationFailure::FinalityNotReached { required, actual } => {
                VerificationFailure::FinalityNotReached { required: *required, actual: *actual }
            },
            VerificationFailure::UnsupportedCapability(m) => VerificationFailure::UnsupportedCapability(
                m.clone(),
            ),
            VerificationFailure::ReplayDetected => VerificationFailure::ReplayDetected,
            VerificationFailure::InvalidOwnershipSignature => VerificationFailure::InvalidOwnershipSignature,
        }
    }
}

/// What a chain verifier reports about one check of a proof.
#[derive(Clone, Debug)]
pub struct VerificationResult {
    /// Whether the check passed.
    pub valid: bool,
    /// The assurance that the check gives.
    pub assurance: VerificationAssurance,
    /// The components that the check established.
    pub verified_components: VerifiedComponents,
    /// Why the check failed, if it did.
    pub error: Option<VerificationFailure>,
}

impl VerificationResult {
    /// A copy of the result.
    pub fn duplicate(&self) -> (r: VerificationResult)
        ensures
            r == *self,
    {
        let error = match &self.error {
            Some(e) => Some(e.duplicate()),
            None => None,
        };
        VerificationResult {
            valid: self.valid,
            assurance: self.assurance,
            verified_components: self.verified_components,
            error,
        }
    }
}

/// The minimum strength of each component that a chain asks of an accepted
/// proof.
#[derive(Clone, Copy, Debug, PartialEq, Eq, Structural)]
pub struct ChainCapabilities {
    /// The weakest inclusion proof that is accepted.
    pub min_inclusion: InclusionStrength,
    /// The confirmations that probabilistic finality needs.
    pub min_confirmations: u64,
    /// Whether only deterministic finality is accepted.
    pub requires_deterministic_finality: bool,
    /// Whether the seal must have been checked against replay.
    pub requires_replay_check: bool,
    /// Whether the owner's signature must have verified.
    pub requires_ownership_signature: bool,
    /// Whether the chain can take part in a transfer that mints: as its
    /// source, authorising the mint, or as its destination.
    pub mint_capable: bool,
}

impl ChainCapabilities {
    /// Bitcoin: Merkle inclusion and six confirmations, with the replay
    /// check and the owner's signature.
    pub fn bitcoin() -> (c: ChainCapabilities)
        ensures
            c.min_inclusion == InclusionStrength::MerklePath,
            c.min_confirmations == 6,
            !c.requires_deterministic_finality,
            c.requires_replay_check,
            c.requires_ownership_signature,
            c.mint_capable,
    {
        ChainCapabilities {
            min_inclusion: InclusionStrength::MerklePath,
            min_confirmations: 6,
            requires_deterministic_finality: false,
            requires_replay_check: true,
            requires_ownership_signature: true,
            mint_capable: true,
        }
    }

    /// Celestia: a data-availability layer, which neither sends nor
    /// receives minted assets.
    pub fn celestia() -> (c: ChainCapabilities)
        ensures
            c.min_inclusion == InclusionStrength::Checksum,
            c.min_confirmations == 1,
            !c.requires_deterministic_finality,
            !c.requires_replay_check,
            !c.requires_ownership_signature,
            !c.mint_capable,
    {
        ChainCapabilities {
            min_inclusion: InclusionStrength::Checksum,
            min_confirmations: 1,
            requires_deterministic_finality: false,
            requires_replay_check: false,
            requires_ownership_signature: false,
            mint_capable: false,
        }
    }

    /// Whether the chain can take part in a transfer that mints.
    pub fn can_authorize_mint(&self) -> (r: bool)
        ensures
            r == self.mint_capable,
    {
        self.mint_capable
    }
}

/// The component in which a result falls short of a chain's minimums.
#[derive(Clone, Copy, Debug, PartialEq, Eq, Structural)]
pub enum ThresholdShortfall {
    /// The inclusion proof is weaker than the chain's minimum.
    Inclusion,
    /// The finality is weaker than the chain's minimum.
    Finality,
    /// The seal was not checked against replay.
    ReplayCheck,
    /// The owner's signature did not verify.
    OwnershipSignature,
}

/// The text of a shortfall.
pub open spec fn shortfall_text(s: ThresholdShortfall) -> Seq<char> {
    match s {
        ThresholdShortfall::Inclusion => "inclusion strength below chain minimum"@,
        ThresholdShortfall::Finality => "finality below chain minimum"@,
        ThresholdShortfall::ReplayCheck => "replay check required"@,
        ThresholdShortfall::OwnershipSignature => "ownership signature required"@,
    }
}

impl ThresholdShortfall {
    /// The text of the shortfall.
    pub fn to_text(&self) -> (s: &'static str)
        ensures
            s@ == shortfall_text(*self),
    {
        match self {
            ThresholdShortfall::Inclusion => "inclusion strength below chain minimum",
            ThresholdShortfall::Finality => "finality below chain minimum",
            ThresholdShortfall::ReplayCheck => "replay check required",
            ThresholdShortfall::OwnershipSignature => "ownership signature required",
        }
    }
}

/// Whether a finality meets a chain's minimum.
pub open spec fn finality_meets(f: FinalityStrength, caps: ChainCapabilities) -> bool {
    match f {
        FinalityStrength::Deterministic => true,
        FinalityStrength::Probabilistic { confirmations } => !caps.requires_deterministic_finality
            && confirmations >= caps.min_confirmations,
        FinalityStrength::Absent => !caps.requires_deterministic_finality && caps.min_confirmations
            == 0,
    }
}

/// The first component, in the order inclusion, finality, replay check,
/// signature, in which `c` falls short of `caps`.
pub open spec fn threshold_shortfall(c: VerifiedComponents, caps: ChainCapabilities) -> Option<
    ThresholdShortfall,
> {
    if inclusion_rank(c.inclusion) < inclusion_rank(caps.min_inclusion) {
        Some(ThresholdShortfall::Inclusion)
    } else if !finality_meets(c.finality, caps) {
        Some(ThresholdShortfall::Finality)
    } else if caps.requires_replay_check && !c.replay_checked {
        Some(ThresholdShortfall::ReplayCheck)
    } else if caps.requires_ownership_signature && !c.ownership_signature {
        Some(ThresholdShortfall::OwnershipSignature)
    } else {
        None
    }
}

impl VerificationResult {
    /// Checks each verified component against the chain's minimums.
    pub fn meets_chain_thresholds(&self, caps: &ChainCapabilities) -> (r: Result<(), ThresholdShortfall>)
        ensures
            r is Ok <==> threshold_shortfall(self.verified_components, *caps) is None,
            r matches Err(s) ==> threshold_shortfall(self.verified_components, *caps) == Some(s),
    {
        let c = &self.verified_components;
        if c.inclusion.rank() < caps.min_inclusion.rank() {
            return Err(ThresholdShortfall::Inclusion);
        }
        let finality_ok = match c.finality {
            FinalityStrength::Deterministic => true,
            FinalityStrength::Probabilistic { confirmations } => !caps.requires_deterministic_finality
                && confirmations >= caps.min_confirmations,
            FinalityStrength::Absent => !caps.requires_deterministic_finality
                && caps.min_confirmations == 0,
        };
        if !finality_ok {
            return Err(ThresholdShortfall::Finality);
        }
        if caps.requires_replay_check && !c.replay_checked {
            return Err(ThresholdShortfall::ReplayCheck);
        }
        if caps.requires_ownership_signature && !c.ownership_signature {
            return Err(ThresholdShortfall::OwnershipSignature);
        }
        Ok(())
    }
}

/// No component established.
pub open spec fn no_components() -> VerifiedComponents {
    VerifiedComponents {
        inclusion: InclusionStrength::Absent,
        finality: FinalityStrength::Absent,
        replay_checked: false,
        ownership_signature: false,
    }
}

/// A failed check at `assurance` that establishes `components`, failing
/// with `failure`.
pub fn rejection(
    assurance: VerificationAssurance,
    components: VerifiedComponents,
    failure: VerificationFailure,
) -> (r: VerificationResult)
    ensures
        !r.valid,
        r.assurance == assurance,
        r.verified_components == components,
        r.error == Some(failure),
{
    VerificationResult { valid: false, assurance, verified_components: components, error: Some(failure) }
}

/// A passed check at `assurance` that establishes `components`.
pub fn acceptance(assurance: VerificationAssurance, components: VerifiedComponents) -> (r: VerificationResult)
    ensures
        r.valid,
        r.assurance == assurance,
        r.verified_components == components,
        r.error is None,
{
    VerificationResult { valid: true, assurance, verified_components: components, error: None }
}

/// The components of a check that established nothing.
pub fn nothing_established() -> (c: VerifiedComponents)
    ensures
        c == no_components(),
{
    VerifiedComponents {
        inclusion: InclusionStrength::Absent,
        finality: FinalityStrength::Absent,
        replay_checked: false,
        ownership_signature: false,
    }
}

} // verus!
