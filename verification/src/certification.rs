//! Deterministic certification of a verification: the inputs it ran on and
//! the outcome it reached, so that it can be reproduced.

use vstd::prelude::*;

verus! {

/// The chain context of a verification.
#[derive(Clone, Debug)]
pub struct ChainMetadata {
    /// Chain identifier.
    pub chain_id: String,
    /// Block height at verification time.
    pub block_height: u64,
    /// Block hash at verification time.
    pub block_hash: Vec<u8>,
}

impl ChainMetadata {
    /// Records a chain context.
    pub fn new(chain_id: String, block_height: u64, block_hash: Vec<u8>) -> (m: ChainMetadata)
        ensures
            m.chain_id@ == chain_id@,
            m.block_height == block_height,
            m.block_hash@ == block_hash@,
    {
        ChainMetadata { chain_id, block_height, block_hash }
    }
}

/// The runtime policy a verification ran under.
#[derive(Clone, Debug)]
pub struct RuntimePolicyConfig {
    /// Confirmations required.
    pub min_confirmations: u64,
    /// Whether unfinalized proofs were accepted.
    pub allow_unfinalized: bool,
    /// Retries allowed.
    pub max_retries: u32,
    /// Whether signatures were required.
    pub require_signatures: bool,
}

impl RuntimePolicyConfig {
    /// Records a policy.
    pub fn new(
        min_confirmations: u64,
        allow_unfinalized: bool,
        max_retries: u32,
        require_signatures: bool,
    ) -> (c: RuntimePolicyConfig)
        ensures
            c.min_confirmations == min_confirmations,
            c.allow_unfinalized == allow_unfinalized,
            c.max_retries == max_retries,
            c.require_signatures == require_signatures,
    {
        RuntimePolicyConfig { min_confirmations, allow_unfinalized, max_retries, require_signatures }
    }
}

/// Everything a verification read.
#[derive(Clone, Debug)]
pub struct VerificationInputs {
    /// Hash of the proof material.
    pub proof_hash: Vec<u8>,
    /// Seal identifier.
    pub seal_id: Vec<u8>,
    /// Anchor identifier.
    pub anchor_id: Vec<u8>,
    /// Chain context.
    pub chain: ChainMetadata,
    /// Policy in force.
    pub policy: RuntimePolicyConfig,
}

impl VerificationInputs {
    /// Records the inputs of a verification.
    pub fn new(
        proof_hash: Vec<u8>,
        seal_id: Vec<u8>,
        anchor_id: Vec<u8>,
        chain: ChainMetadata,
        policy: RuntimePolicyConfig,
    ) -> (i: VerificationInputs)
        ensures
            i.proof_hash@ == proof_hash@,
            i.seal_id@ == seal_id@,
            i.anchor_id@ == anchor_id@,
            i.chain == chain,
            i.policy == policy,
    {
        VerificationInputs { proof_hash, seal_id, anchor_id, chain, policy }
    }
}

/// How strongly each component of a proof was verified.
#[derive(Clone, Copy, Debug, PartialEq, Eq, Structural)]
pub struct VerificationStrength {
    /// Inclusion was verified cryptographically.
    pub inclusion: bool,
    /// Finality was verified.
    pub finality: bool,
    /// Replay protection was checked.
    pub replay: bool,
    /// Signatures were verified.
    pub signatures: bool,
}

impl VerificationStrength {
    /// Every component verified.
    pub fn maximum() -> (s: VerificationStrength)
        ensures
            s.inclusion && s.finality && s.replay && s.signatures,
    {
        VerificationStrength { inclusion: true, finality: true, replay: true, signatures: true }
    }
}

/// The outcome of a verification.
#[derive(Clone, Debug)]
pub struct VerificationOutputs {
    /// Whether the proof was accepted.
    pub valid: bool,
    /// Summary of the outcome.
    pub summary: String,
    /// Strength reached per component.
    pub strength: VerificationStrength,
}

impl VerificationOutputs {
    /// Records an outcome.
    pub fn new(valid: bool, summary: String, strength: VerificationStrength) -> (o:
        VerificationOutputs)
        ensures
            o.valid == valid,
            o.summary@ == summary@,
            o.strength == strength,
    {
        VerificationOutputs { valid, summary, strength }
    }
}

/// A reproducible record of one verification.
#[derive(Clone, Debug)]
pub struct ProofCertification {
    /// The runtime that verified.
    pub runtime_id: String,
    /// What it read.
    pub inputs: VerificationInputs,
    /// What it concluded.
    pub outputs: VerificationOutputs,
}

impl ProofCertification {
    /// Records a certification.
    pub fn new(runtime_id: String, inputs: VerificationInputs, outputs: VerificationOutputs) -> (c:
        ProofCertification)
        ensures
            c.runtime_id@ == runtime_id@,
            c.inputs == inputs,
            c.outputs == outputs,
    {
        ProofCertification { runtime_id, inputs, outputs }
    }
}

} // verus!
