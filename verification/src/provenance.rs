//! Provenance of a proof: where it came from and which verification steps it
//! has been through.

use vstd::prelude::*;

verus! {

/// The kinds of step that a proof goes through.
#[derive(Clone, Copy, Debug, PartialEq, Eq, Structural)]
pub enum VerificationStepType {
    /// The proof was assembled by an adapter.
    ProofCreation,
    /// Its signatures were verified.
    SignatureVerification,
    /// Its inclusion proof was verified.
    InclusionVerification,
    /// Its finality was verified.
    FinalityVerification,
    /// Its seal was checked against replay.
    ReplayCheck,
}

/// One step of a proof's verification history.
#[derive(Clone, Debug)]
pub struct VerificationStep {
    /// The kind of step.
    pub step_type: VerificationStepType,
    /// Who performed it.
    pub actor: String,
    /// Whether it succeeded.
    pub success: bool,
}

impl VerificationStep {
    /// Records a step.
    pub fn new(step_type: VerificationStepType, actor: String, success: bool) -> (s:
        VerificationStep)
        ensures
            s.step_type == step_type,
            s.actor@ == actor@,
            s.success == success,
    {
        VerificationStep { step_type, actor, success }
    }
}

/// Where a proof came from and what has been checked of it.
#[derive(Clone, Debug)]
pub struct ProofProvenance {
    /// Chain the proof was drawn from.
    pub source_chain: String,
    /// Block height of the proven event.
    pub block_height: u64,
    /// The runtime that assembled the proof.
    pub runtime_id: String,
    /// Hash of the proof material.
    pub proof_hash: Vec<u8>,
    /// The verification history, oldest first.
    pub steps: Vec<VerificationStep>,
}

/// Whether `steps` holds a successful step of kind `t`.
pub open spec fn has_step(steps: Seq<VerificationStep>, t: VerificationStepType) -> bool {
    exists|i: int| 0 <= i < steps.len() && #[trigger] steps[i].step_type == t && steps[i].success
}

/// Whether `steps` holds a successful step of every kind.
pub open spec fn history_complete(steps: Seq<VerificationStep>) -> bool {
    &&& has_step(steps, VerificationStepType::ProofCreation)
    &&& has_step(steps, VerificationStepType::SignatureVerification)
    &&& has_step(steps, VerificationStepType::InclusionVerification)
    &&& has_step(steps, VerificationStepType::FinalityVerification)
    &&& has_step(steps, VerificationStepType::ReplayCheck)
}

fn has_successful_step(steps: &Vec<VerificationStep>, t: VerificationStepType) -> (r: bool)
    ensures
        r == has_step(steps@, t),
{
    let mut i: usize = 0;
    while i < steps.len()
        invariant
            i <= steps@.len(),
            forall|j: int| 0 <= j < i ==> !(#[trigger] steps@[j].step_type == t && steps@[j].success),
        decreases steps@.len() - i,
    {
        if steps[i].step_type == t && steps[i].success {
            return true;
        }
        i = i + 1;
    }
    false
}

impl ProofProvenance {
    /// Starts a provenance record with an empty history.
    pub fn new(source_chain: String, block_height: u64, runtime_id: String, proof_hash: Vec<u8>) -> (p:
        ProofProvenance)
        ensures
            p.source_chain@ == source_chain@,
            p.block_height == block_height,
            p.runtime_id@ == runtime_id@,
            p.proof_hash@ == proof_hash@,
            p.steps@.len() == 0,
    {
        ProofProvenance { source_chain, block_height, runtime_id, proof_hash, steps: Vec::new() }
    }

    /// Appends a step to the history.
    pub fn add_verification_step(&mut self, step: VerificationStep)
        ensures
            final(self).steps@ == old(self).steps@.push(step),
            final(self).source_chain == old(self).source_chain,
            final(self).block_height == old(self).block_height,
            final(self).runtime_id == old(self).runtime_id,
            final(self).proof_hash == old(self).proof_hash,
    {
        self.steps.push(step);
    }

    /// Whether the history holds a successful step of every kind.
    pub fn is_verification_complete(&self) -> (r: bool)
        ensures
            r == history_complete(self.steps@),
    {
        let a = has_successful_step(&self.steps, VerificationStepType::ProofCreation);
        let b = has_successful_step(&self.steps, VerificationStepType::SignatureVerification);
        let c = has_successful_step(&self.steps, VerificationStepType::InclusionVerification);
        let d = has_successful_step(&self.steps, VerificationStepType::FinalityVerification);
        let e = has_successful_step(&self.steps, VerificationStepType::ReplayCheck);
        a && b && c && d && e
    }
}

} // verus!
