//! The canonical proof validation pipeline.
//!
//! Every proof bundle is validated in one fixed order: structure, domain,
//! inclusion, zero-knowledge proof, finality, replay, seal registry,
//! transition legality, signatures, and the acceptance decision against the
//! source chain's minimums. The first failing step rejects the bundle; no
//! step is skipped or reordered.
//!
//! The checks that a chain verifier or a replay registry answers are asked
//! for by `ProofValidation`: it says which question comes next, takes the
//! answer, and records the step that the answer decides.

use vstd::prelude::*;
use vstd::string::{StringExecFns, StringSliceAdditionalSpecFns};

use crate::hash::tagged_hash_spec;
use crate::proof_bundle::ProofBundle;
use crate::verified::{
    assurance_rank, shortfall_text, stronger_finality, stronger_inclusion, threshold_shortfall,
    failure_text, ChainCapabilities, FinalityStrength, InclusionStrength, VerificationAssurance,
    VerificationFailure, VerificationResult, VerifiedComponents,
};

verus! {

/// The index of the first invalid result, if there is one.
pub open spec fn first_invalid(s: Seq<VerificationResult>) -> Option<int>
    decreases s.len(),
{
    if s.len() == 0 {
        None
    } else {
        match first_invalid(s.drop_last()) {
            Some(i) => Some(i),
            None => if !s.last().valid {
                Some(s.len() - 1)
            } else {
                None
            },
        }
    }
}

/// The highest assurance among the results, the earliest one on a tie.
pub open spec fn best_assurance(s: Seq<VerificationResult>) -> VerificationAssurance
    decreases s.len(),
{
    if s.len() == 0 {
        VerificationAssurance::StructureChecked
    } else {
        let prev = best_assurance(s.drop_last());
        if assurance_rank(s.last().assurance) > assurance_rank(prev) {
            s.last().assurance
        } else {
            prev
        }
    }
}

/// The strongest inclusion among the results.
pub open spec fn best_inclusion(s: Seq<VerificationResult>) -> InclusionStrength
    decreases s.len(),
{
    if s.len() == 0 {
        InclusionStrength::Absent
    } else {
        let prev = best_inclusion(s.drop_last());
        if stronger_inclusion(s.last().verified_components.inclusion, prev) {
            s.last().verified_components.inclusion
        } else {
            prev
        }
    }
}

/// The strongest finality among the results, as `stronger_finality` ranks
/// them, taken in order.
pub open spec fn best_finality(s: Seq<VerificationResult>) -> FinalityStrength
    decreases s.len(),
{
    if s.len() == 0 {
        FinalityStrength::Absent
    } else {
        let prev = best_finality(s.drop_last());
        if stronger_finality(s.last().verified_components.finality, prev) {
            s.last().verified_components.finality
        } else {
            prev
        }
    }
}

/// Whether any result checked replay.
pub open spec fn any_replay_checked(s: Seq<VerificationResult>) -> bool {
    exists|i: int| 0 <= i < s.len() && #[trigger] s[i].verified_components.replay_checked
}

/// Whether any result verified the owner's signature.
pub open spec fn any_ownership_signature(s: Seq<VerificationResult>) -> bool {
    exists|i: int| 0 <= i < s.len() && #[trigger] s[i].verified_components.ownership_signature
}

/// The error of the last result that carries one.
pub open spec fn last_error(s: Seq<VerificationResult>) -> Option<VerificationFailure>
    decreases s.len(),
{
    if s.len() == 0 {
        None
    } else if s.last().error is Some {
        s.last().error
    } else {
        last_error(s.drop_last())
    }
}

/// The results merged into one: the first invalid result if there is one,
/// else a valid result with the strongest value of each component.
pub open spec fn merged_result(s: Seq<VerificationResult>) -> VerificationResult {
    match first_invalid(s) {
        Some(i) => s[i],
        None => VerificationResult {
            valid: true,
            assurance: best_assurance(s),
            verified_components: VerifiedComponents {
                inclusion: best_inclusion(s),
                finality: best_finality(s),
                replay_checked: any_replay_checked(s),
                ownership_signature: any_ownership_signature(s),
            },
            error: last_error(s),
        },
    }
}

proof fn lemma_first_invalid_bounds(s: Seq<VerificationResult>)
    ensures
        first_invalid(s) matches Some(i) ==> 0 <= i < s.len() && !s[i].valid,
        first_invalid(s) is None ==> forall|j: int| 0 <= j < s.len() ==> #[trigger] s[j].valid,
    decreases s.len(),
{
    if s.len() > 0 {
        lemma_first_invalid_bounds(s.drop_last());
        assert forall|j: int| 0 <= j < s.len() - 1 implies s.drop_last()[j] == #[trigger] s[j] by {}
    }
}

/// A first invalid result stays the first one when results are appended.
proof fn lemma_first_invalid_extends(s: Seq<VerificationResult>, k: int)
    requires
        0 <= k <= s.len(),
        first_invalid(s.subrange(0, k)) is Some,
    ensures
        first_invalid(s) == first_invalid(s.subrange(0, k)),
    decreases s.len(),
{
    if s.len() == k {
        assert(s.subrange(0, k) =~= s);
    } else {
        assert(s.drop_last().subrange(0, k) =~= s.subrange(0, k));
        lemma_first_invalid_extends(s.drop_last(), k);
    }
}

/// Merges the results of the checks of one proof.
pub fn merge_verification_results(results: &Vec<VerificationResult>) -> (r: VerificationResult)
    ensures
        r == merged_result(results@),
{
    let n = results.len();
    let mut i: usize = 0;
    while i < n
        invariant
            n == results@.len(),
            i <= n,
            first_invalid(results@.subrange(0, i as int)) is None,
        decreases n - i,
    {
        proof {
            assert(results@.subrange(0, i + 1).drop_last() =~= results@.subrange(0, i as int));
        }
        if !results[i].valid {
            proof {
                let t = results@.subrange(0, i + 1);
                assert(first_invalid(t) == Some(i as int));
                lemma_first_invalid_extends(results@, i + 1);
                assert(results@.subrange(0, n as int) =~= results@);
            }
            return results[i].duplicate();
        }
        i = i + 1;
    }
    assert(results@.subrange(0, n as int) =~= results@);
    let mut best_a = VerificationAssurance::StructureChecked;
    let mut best_i = InclusionStrength::Absent;
    let mut best_f = FinalityStrength::Absent;
    let mut replay_checked = false;
    let mut ownership_signature = false;
    let mut error: Option<VerificationFailure> = None;
    let mut j: usize = 0;
    while j < n
        invariant
            n == results@.len(),
            j <= n,
            best_a == best_assurance(results@.subrange(0, j as int)),
            best_i == best_inclusion(results@.subrange(0, j as int)),
            best_f == best_finality(results@.subrange(0, j as int)),
            replay_checked == any_replay_checked(results@.subrange(0, j as int)),
            ownership_signature == any_ownership_signature(results@.subrange(0, j as int)),
            error == last_error(results@.subrange(0, j as int)),
        decreases n - j,
    {
        let ghost pre = results@.subrange(0, j as int);
        let ghost cur = results@.subrange(0, j + 1);
        proof {
            assert(cur.drop_last() =~= pre);
            assert(cur.last() == results@[j as int]);
        }
        let r = &results[j];
        if r.assurance.rank() > best_a.rank() {
            best_a = r.assurance;
        }
        if crate::verified::is_stronger_inclusion(&r.verified_components.inclusion, &best_i) {
            best_i = r.verified_components.inclusion;
        }
        if crate::verified::is_stronger_finality(&r.verified_components.finality, &best_f) {
            best_f = r.verified_components.finality;
        }
        proof {
            if r.verified_components.replay_checked {
                assert(cur[j as int].verified_components.replay_checked);
            }
            if any_replay_checked(cur) {
                let w = choose|w: int| 0 <= w < cur.len() && #[trigger] cur[w].verified_components.replay_checked;
                if w < j {
                    assert(pre[w] == cur[w]);
                }
            }
            if any_replay_checked(pre) {
                let w = choose|w: int| 0 <= w < pre.len() && #[trigger] pre[w].verified_components.replay_checked;
                assert(pre[w] == cur[w]);
            }
            if r.verified_components.ownership_signature {
                assert(cur[j as int].verified_components.ownership_signature);
            }
            if any_ownership_signature(cur) {
                let w = choose|w: int| 0 <= w < cur.len() && #[trigger] cur[w].verified_components.ownership_signature;
                if w < j {
                    assert(pre[w] == cur[w]);
                }
            }
            if any_ownership_signature(pre) {
                let w = choose|w: int| 0 <= w < pre.len() && #[trigger] pre[w].verified_components.ownership_signature;
                assert(pre[w] == cur[w]);
            }
        }
        if r.verified_components.replay_checked {
            replay_checked = true;
        }
        if r.verified_components.ownership_signature {
            ownership_signature = true;
        }
        match &r.error {
            Some(e) => {
                error = Some(e.duplicate());
            },
            None => {},
        }
        j = j + 1;
    }
    assert(results@.subrange(0, n as int) =~= results@);
    VerificationResult {
        valid: true,
        assurance: best_a,
        verified_components: VerifiedComponents {
            inclusion: best_i,
            finality: best_f,
            replay_checked,
            ownership_signature,
        },
        error,
    }
}

/// The names of the ten steps, in the order in which they run.
pub open spec fn step_name(k: int) -> Seq<char> {
    if k == 0 {
        "structural_validation"@
    } else if k == 1 {
        "domain_validation"@
    } else if k == 2 {
        "inclusion_proof_validation"@
    } else if k == 3 {
        "zk_proof_validation"@
    } else if k == 4 {
        "finality_validation"@
    } else if k == 5 {
        "replay_validation"@
    } else if k == 6 {
        "seal_registry_validation"@
    } else if k == 7 {
        "transition_legality_validation"@
    } else if k == 8 {
        "signature_validation"@
    } else {
        "acceptance_decision"@
    }
}

/// The outcome of one validation step.
#[derive(Clone, Debug)]
pub struct ValidationStep {
    /// Step name.
    pub name: &'static str,
    /// Whether this step passed.
    pub passed: bool,
    /// Error message if failed.
    pub error: Option<String>,
}

/// The outcome of validating a proof bundle.
#[derive(Clone, Debug)]
pub struct ValidationResult {
    /// Whether the bundle was accepted.
    pub accepted: bool,
    /// The steps that ran, in order.
    pub steps: Vec<ValidationStep>,
    /// Why the bundle was rejected, if it was.
    pub error: Option<String>,
}

/// Whether step `s` is the step `name` that passed (`failure` is `None`) or
/// failed with the message in `failure`.
pub open spec fn step_is(s: ValidationStep, name: Seq<char>, failure: Option<Seq<char>>) -> bool {
    &&& s.name@ == name
    &&& s.passed == (failure is None)
    &&& match failure {
        None => s.error is None,
        Some(m) => s.error matches Some(e) && e@ == m,
    }
}

/// The tag under which a bundle's inclusion proof is hashed for domain
/// separation.
pub open spec fn proof_bundle_tag() -> Seq<u8> {
    "csv.proof-bundle.v1".spec_bytes()
}

/// The view of the all-zero hash.
pub open spec fn zero_hash_view() -> Seq<u8> {
    Seq::new(32, |i: int| 0u8)
}

/// Why the bundle fails the structural step, if it does.
pub open spec fn structural_failure(b: ProofBundle) -> Option<Seq<char>> {
    if b.inclusion_proof.proof_bytes@.len() == 0 {
        Some("Inclusion proof bytes are empty"@)
    } else if b.finality_proof.finality_data@.len() == 0 {
        Some("Finality data is empty"@)
    } else if b.signatures@.len() == 0 {
        Some("No signatures in proof bundle"@)
    } else if b.transition_dag.root_commitment@ == zero_hash_view() {
        Some("Transition DAG root commitment is zero"@)
    } else if b.seal_ref.id@.len() == 0 {
        Some("Seal reference ID is empty"@)
    } else {
        None
    }
}

/// Why the bundle fails the domain step, if it does: the domain-separated
/// hash of its inclusion proof must be the block hash it names, and the
/// transfer must cross chains.
pub open spec fn domain_failure(b: ProofBundle, source: Seq<char>, destination: Seq<char>) -> Option<
    Seq<char>,
> {
    if tagged_hash_spec(proof_bundle_tag(), b.inclusion_proof.proof_bytes@)
        != b.inclusion_proof.block_hash@ {
        Some("Proof hash does not match block hash - domain mismatch"@)
    } else if source == destination {
        Some("Source and destination chains must be different for cross-chain transfer"@)
    } else {
        None
    }
}

/// Why the bundle fails the transition legality step, if it does.
pub open spec fn legality_failure(b: ProofBundle) -> Option<Seq<char>> {
    if b.inclusion_proof.proof_bytes@.len() == 0 {
        Some("Inclusion proof is empty - invalid transition"@)
    } else if b.finality_proof.finality_data@.len() == 0 {
        Some("Finality data is empty - invalid transition"@)
    } else if b.transition_dag.nodes@.len() == 0 {
        Some("Transition DAG has no nodes - invalid transition"@)
    } else if b.inclusion_proof.block_number == 0 && b.inclusion_proof.block_hash@
        != zero_hash_view() {
        Some("Block number is zero but block hash is non-zero - invalid"@)
    } else {
        None
    }
}

/// Why a step fails on a chain verifier's reply, if it does; `what` names
/// the checked material.
pub open spec fn verifier_failure(what: Seq<char>, reply: Result<VerificationResult, String>) -> Option<
    Seq<char>,
> {
    match reply {
        Ok(r) => if r.valid {
            None
        } else {
            Some(
                what + " verification failed: "@ + match r.error {
                    Some(e) => failure_text(e),
                    None => "unknown failure"@,
                },
            )
        },
        Err(e) => Some(what + " verification error: "@ + e@),
    }
}

/// Why the replay step fails on the registry's reply, if it does.
pub open spec fn replay_failure(reply: Result<(), String>) -> Option<Seq<char>> {
    match reply {
        Ok(_) => None,
        Err(e) => Some("Replay protection failed: "@ + e@),
    }
}

/// Why the acceptance decision rejects the merged results, if it does.
pub open spec fn acceptance_failure(results: Seq<VerificationResult>, caps: ChainCapabilities) -> Option<
    Seq<char>,
> {
    match threshold_shortfall(merged_result(results).verified_components, caps) {
        Some(sf) => Some("Chain thresholds not met: "@ + shortfall_text(sf)),
        None => None,
    }
}

/// `a` followed by `b` and `c`.
fn concat3(a: &str, b: &str, c: &str) -> (s: String)
    ensures
        s@ == a@ + b@ + c@,
{
    let mut s = String::from_str(a);
    s.append(b);
    s.append(c);
    s
}

/// `a` followed by `b`.
fn concat2(a: &str, b: &str) -> (s: String)
    ensures
        s@ == a@ + b@,
{
    let mut s = String::from_str(a);
    s.append(b);
    s
}

/// A step that passed.
fn passed_step(name: &'static str) -> (s: ValidationStep)
    ensures
        step_is(s, name@, None),
{
    ValidationStep { name, passed: true, error: None }
}

/// A step that failed with `message`.
fn failed_step(name: &'static str, message: String) -> (s: ValidationStep)
    ensures
        step_is(s, name@, Some(message@)),
{
    ValidationStep { name, passed: false, error: Some(message) }
}

/// The step `name` decided by a failure message, if there is one.
fn step_from(name: &'static str, failure: Option<&'static str>) -> (s: ValidationStep)
    ensures
        step_is(
            s,
            name@,
            match failure {
                Some(m) => Some(m@),
                None => None,
            },
        ),
{
    match failure {
        Some(m) => failed_step(name, String::from_str(m)),
        None => passed_step(name),
    }
}

/// Step 1: the bundle has every part it needs.
pub fn validate_structural(bundle: &ProofBundle) -> (s: ValidationStep)
    ensures
        step_is(s, step_name(0), structural_failure(*bundle)),
{
    let failure = if bundle.inclusion_proof.proof_bytes.len() == 0 {
        Some("Inclusion proof bytes are empty")
    } else if bundle.finality_proof.finality_data.len() == 0 {
        Some("Finality data is empty")
    } else if bundle.signatures.len() == 0 {
        Some("No signatures in proof bundle")
    } else if bundle.transition_dag.root_commitment == crate::hash::Hash::zero() {
        Some("Transition DAG root commitment is zero")
    } else if bundle.seal_ref.id.len() == 0 {
        Some("Seal reference ID is empty")
    } else {
        None
    };
    step_from("structural_validation", failure)
}

/// The domain-separated hash of a bundle's inclusion proof.
pub fn proof_bundle_hash(proof_bytes: &[u8]) -> (h: crate::hash::Hash)
    ensures
        h@ == tagged_hash_spec(proof_bundle_tag(), proof_bytes@),
{
    crate::hash::Hash::new(crate::hash::tagged_hash("csv.proof-bundle.v1", proof_bytes))
}

/// Step 2: the proof belongs to the block it names, and the transfer
/// crosses chains.
pub fn validate_domain(bundle: &ProofBundle, source_chain: &str, destination_chain: &str) -> (s:
    ValidationStep)
    ensures
        step_is(s, step_name(1), domain_failure(*bundle, source_chain@, destination_chain@)),
{
    let proof_hash = proof_bundle_hash(bundle.inclusion_proof.proof_bytes.as_slice());
    let failure = if proof_hash != bundle.inclusion_proof.block_hash {
        Some("Proof hash does not match block hash - domain mismatch")
    } else if String::from_str(source_chain) == String::from_str(destination_chain) {
        Some("Source and destination chains must be different for cross-chain transfer")
    } else {
        None
    };
    step_from("domain_validation", failure)
}

/// Step 8: the bundle describes a legal transition.
pub fn validate_transition_legality(bundle: &ProofBundle) -> (s: ValidationStep)
    ensures
        step_is(s, step_name(7), legality_failure(*bundle)),
{
    let failure = if bundle.inclusion_proof.proof_bytes.len() == 0 {
        Some("Inclusion proof is empty - invalid transition")
    } else if bundle.finality_proof.finality_data.len() == 0 {
        Some("Finality data is empty - invalid transition")
    } else if bundle.transition_dag.nodes.len() == 0 {
        Some("Transition DAG has no nodes - invalid transition")
    } else if bundle.inclusion_proof.block_number == 0 && bundle.inclusion_proof.block_hash
        != crate::hash::Hash::zero() {
        Some("Block number is zero but block hash is non-zero - invalid")
    } else {
        None
    };
    step_from("transition_legality_validation", failure)
}

/// The step `name` decided by a chain verifier's reply about `what`.
pub fn verifier_step(name: &'static str, what: &str, reply: &Result<VerificationResult, String>) -> (s:
    ValidationStep)
    ensures
        step_is(s, name@, verifier_failure(what@, *reply)),
{
    match reply {
        Ok(r) => {
            if r.valid {
                passed_step(name)
            } else {
                let detail = match &r.error {
                    Some(e) => e.to_text(),
                    None => String::from_str("unknown failure"),
                };
                failed_step(name, concat3(what, " verification failed: ", detail.as_str()))
            }
        },
        Err(e) => failed_step(name, concat3(what, " verification error: ", e.as_str())),
    }
}

/// Step 6, decided by the replay registry's reply.
pub fn replay_step(reply: &Result<(), String>) -> (s: ValidationStep)
    ensures
        step_is(s, step_name(5), replay_failure(*reply)),
{
    match reply {
        Ok(_) => passed_step("replay_validation"),
        Err(e) => failed_step("replay_validation", concat2("Replay protection failed: ", e.as_str())),
    }
}

/// Step 10: the merged results meet the source chain's minimums.
pub fn acceptance_step(results: &Vec<VerificationResult>, caps: &ChainCapabilities) -> (s: ValidationStep)
    ensures
        step_is(s, step_name(9), acceptance_failure(results@, *caps)),
{
    let merged = merge_verification_results(results);
    match merged.meets_chain_thresholds(caps) {
        Ok(()) => passed_step("acceptance_decision"),
        Err(sf) => failed_step(
            "acceptance_decision",
            concat2("Chain thresholds not met: ", sf.to_text()),
        ),
    }
}

impl ValidationStep {
    /// A copy of the step.
    pub fn duplicate(&self) -> (r: ValidationStep)
        ensures
            r == *self,
    {
        let error = match &self.error {
            Some(e) => Some(e.clone()),
            None => None,
        };
        ValidationStep { name: self.name, passed: self.passed, error }
    }
}

/// Where a validation run stands: the outside check it waits for, or
/// `Finished`.
#[derive(Clone, Copy, Debug, PartialEq, Eq, Structural)]
pub enum PipelineStage {
    /// Waits for the chain verifier's inclusion check.
    Inclusion,
    /// Waits for the chain verifier's zero-knowledge proof check.
    ZkProof,
    /// Waits for the chain verifier's finality check.
    Finality,
    /// Waits for the replay registry.
    Replay,
    /// Waits for the chain verifier's seal registry check.
    SealRegistry,
    /// Waits for the chain verifier's signature check.
    Signature,
    /// The outcome is decided.
    Finished,
}

/// The number of steps that have run, all of them passed, while a run waits
/// at `stage`.
pub open spec fn stage_steps(stage: PipelineStage) -> int {
    match stage {
        PipelineStage::Inclusion => 2,
        PipelineStage::ZkProof => 3,
        PipelineStage::Finality => 4,
        PipelineStage::Replay => 5,
        PipelineStage::SealRegistry => 6,
        PipelineStage::Signature => 8,
        PipelineStage::Finished => 10,
    }
}

/// Whether a run at `stage` waits for the chain verifier.
pub open spec fn asks_verifier(stage: PipelineStage) -> bool {
    ||| stage is Inclusion
    ||| stage is ZkProof
    ||| stage is Finality
    ||| stage is SealRegistry
    ||| stage is Signature
}

/// The material that the chain verifier checks at `stage`, as its messages
/// name it.
pub open spec fn stage_what(stage: PipelineStage) -> Seq<char> {
    match stage {
        PipelineStage::Inclusion => "Inclusion proof"@,
        PipelineStage::ZkProof => "ZK proof"@,
        PipelineStage::Finality => "Finality proof"@,
        PipelineStage::SealRegistry => "Seal registry"@,
        _ => "Signature"@,
    }
}

/// What the caller of a validation run has to do next.
#[derive(Clone, Copy, Debug, PartialEq, Eq)]
pub enum PipelineAction {
    /// Ask the chain verifier to check the inclusion proof against this root.
    VerifyInclusion {
        /// The root the proof must lead to.
        expected_root: crate::hash::Hash,
    },
    /// Ask the chain verifier to check the finality data as a zero-knowledge
    /// proof.
    VerifyZk,
    /// Ask the chain verifier to check the finality proof.
    VerifyFinality,
    /// Ask the replay registry to consume the key of this block hash.
    ConsumeReplay {
        /// The block hash the replay key is made of.
        block_hash: crate::hash::Hash,
    },
    /// Ask the chain verifier whether this seal is still unconsumed.
    VerifySealRegistry {
        /// The seal to look up.
        seal_id: crate::hash::Hash,
    },
    /// Ask the chain verifier to check the bundle's signatures.
    VerifySignature,
    /// Nothing: the outcome is decided.
    Finished,
}

/// One validation of a proof bundle, step by step.
#[derive(Debug)]
pub struct ProofValidation {
    /// Where the run stands.
    pub stage: PipelineStage,
    /// The steps that have run, in order.
    pub steps: Vec<ValidationStep>,
    /// The chain verifier's results so far.
    pub results: Vec<VerificationResult>,
    /// The source chain's minimums for the acceptance decision.
    pub caps: ChainCapabilities,
    /// The transition legality step, decided by the bundle alone.
    pub legality: ValidationStep,
}

impl ProofValidation {
    /// The steps run in the canonical order, all but the last passed, and a
    /// run that waits has passed every step before its stage.
    pub open spec fn wf(self) -> bool {
        &&& 1 <= self.steps@.len() <= 10
        &&& forall|k: int| 0 <= k < self.steps@.len() ==> (#[trigger] self.steps@[k]).name@ == step_name(k)
        &&& forall|k: int| 0 <= k < self.steps@.len() - 1 ==> (#[trigger] self.steps@[k]).passed
        &&& !self.steps@.last().passed ==> self.steps@.last().error is Some
        &&& self.stage !is Finished ==> self.steps@.len() == stage_steps(self.stage)
            && self.steps@.last().passed
        &&& (self.stage is Finished && self.steps@.last().passed) ==> self.steps@.len() == 10
        &&& self.legality.name@ == step_name(7)
        &&& !self.legality.passed ==> self.legality.error is Some
    }

    /// Starts validating `bundle` for a transfer from `source_chain` to
    /// `destination_chain`: runs the structural and domain steps.
    pub fn start(
        bundle: &ProofBundle,
        source_chain: &str,
        destination_chain: &str,
        caps: ChainCapabilities,
    ) -> (v: ProofValidation)
        ensures
            v.wf(),
            v.results@.len() == 0,
            v.caps == caps,
            step_is(v.legality, step_name(7), legality_failure(*bundle)),
            step_is(v.steps@[0], step_name(0), structural_failure(*bundle)),
            structural_failure(*bundle) is Some ==> v.steps@.len() == 1 && v.stage is Finished,
            structural_failure(*bundle) is None ==> {
                &&& v.steps@.len() == 2
                &&& step_is(
                    v.steps@[1],
                    step_name(1),
                    domain_failure(*bundle, source_chain@, destination_chain@),
                )
                &&& domain_failure(*bundle, source_chain@, destination_chain@) is Some
                    ==> v.stage is Finished
                &&& domain_failure(*bundle, source_chain@, destination_chain@) is None
                    ==> v.stage is Inclusion
            },
    {
        let legality = validate_transition_legality(bundle);
        let mut steps: Vec<ValidationStep> = Vec::new();
        let results: Vec<VerificationResult> = Vec::new();
        let structural = validate_structural(bundle);
        let structural_passed = structural.passed;
        steps.push(structural);
        if !structural_passed {
            return ProofValidation { stage: PipelineStage::Finished, steps, results, caps, legality };
        }
        let domain = validate_domain(bundle, source_chain, destination_chain);
        let domain_passed = domain.passed;
        steps.push(domain);
        let stage = if domain_passed {
            PipelineStage::Inclusion
        } else {
            PipelineStage::Finished
        };
        ProofValidation { stage, steps, results, caps, legality }
    }

    /// What the caller has to do next for `bundle`, the bundle the run was
    /// started on.
    pub fn next_action(&self, bundle: &ProofBundle) -> (a: PipelineAction)
        ensures
            a == match self.stage {
                PipelineStage::Inclusion => PipelineAction::VerifyInclusion {
                    expected_root: bundle.inclusion_proof.block_hash,
                },
                PipelineStage::ZkProof => PipelineAction::VerifyZk,
                PipelineStage::Finality => PipelineAction::VerifyFinality,
                PipelineStage::Replay => PipelineAction::ConsumeReplay {
                    block_hash: bundle.inclusion_proof.block_hash,
                },
                PipelineStage::SealRegistry => PipelineAction::VerifySealRegistry {
                    seal_id: bundle.inclusion_proof.block_hash,
                },
                PipelineStage::Signature => PipelineAction::VerifySignature,
                PipelineStage::Finished => PipelineAction::Finished,
            },
    {
        match self.stage {
            PipelineStage::Inclusion => PipelineAction::VerifyInclusion {
                expected_root: bundle.inclusion_proof.block_hash,
            },
            PipelineStage::ZkProof => PipelineAction::VerifyZk,
            PipelineStage::Finality => PipelineAction::VerifyFinality,
            PipelineStage::Replay => PipelineAction::ConsumeReplay {
                block_hash: bundle.inclusion_proof.block_hash,
            },
            PipelineStage::SealRegistry => PipelineAction::VerifySealRegistry {
                seal_id: bundle.inclusion_proof.block_hash,
            },
            PipelineStage::Signature => PipelineAction::VerifySignature,
            PipelineStage::Finished => PipelineAction::Finished,
        }
    }

    /// Records the chain verifier's reply to the check the run waits for,
    /// and runs the local steps that follow it.
    pub fn record_verifier_reply(&mut self, reply: Result<VerificationResult, String>)
        requires
            old(self).wf(),
            asks_verifier(old(self).stage),
        ensures
            final(self).wf(),
            final(self).caps == old(self).caps,
            final(self).legality == old(self).legality,
            final(self).results@ == match reply {
                Ok(r) => old(self).results@.push(r),
                Err(_) => old(self).results@,
            },
            final(self).steps@.subrange(0, old(self).steps@.len() as int) == old(self).steps@,
            step_is(
                final(self).steps@[old(self).steps@.len() as int],
                step_name(old(self).steps@.len() as int),
                verifier_failure(stage_what(old(self).stage), reply),
            ),
            verifier_failure(stage_what(old(self).stage), reply) is Some ==> final(self).stage is Finished
                && final(self).steps@.len() == old(self).steps@.len() + 1,
            verifier_failure(stage_what(old(self).stage), reply) is None ==> match old(self).stage {
                PipelineStage::Inclusion => final(self).stage is ZkProof,
                PipelineStage::ZkProof => final(self).stage is Finality,
                PipelineStage::Finality => final(self).stage is Replay,
                PipelineStage::SealRegistry => {
                    &&& final(self).steps@.len() == old(self).steps@.len() + 2
                    &&& final(self).steps@[old(self).steps@.len() + 1int] == old(self).legality
                    &&& (final(self).stage is Finished <==> !old(self).legality.passed)
                    &&& old(self).legality.passed ==> final(self).stage is Signature
                },
                _ => {
                    &&& final(self).steps@.len() == old(self).steps@.len() + 2
                    &&& step_is(
                        final(self).steps@[old(self).steps@.len() + 1int],
                        step_name(9),
                        acceptance_failure(final(self).results@, old(self).caps),
                    )
                    &&& final(self).stage is Finished
                },
            },
    {
        let (name, what): (&'static str, &'static str) = match self.stage {
            PipelineStage::Inclusion => ("inclusion_proof_validation", "Inclusion proof"),
            PipelineStage::ZkProof => ("zk_proof_validation", "ZK proof"),
            PipelineStage::Finality => ("finality_validation", "Finality proof"),
            PipelineStage::SealRegistry => ("seal_registry_validation", "Seal registry"),
            _ => ("signature_validation", "Signature"),
        };
        let step = verifier_step(name, what, &reply);
        let passed = step.passed;
        match reply {
            Ok(r) => {
                self.results.push(r);
            },
            Err(_) => {},
        }
        self.steps.push(step);
        if !passed {
            self.stage = PipelineStage::Finished;
            return ;
        }
        match self.stage {
            PipelineStage::Inclusion => {
                self.stage = PipelineStage::ZkProof;
            },
            PipelineStage::ZkProof => {
                self.stage = PipelineStage::Finality;
            },
            PipelineStage::Finality => {
                self.stage = PipelineStage::Replay;
            },
            PipelineStage::SealRegistry => {
                let legality = self.legality.duplicate();
                let legality_passed = legality.passed;
                self.steps.push(legality);
                self.stage = if legality_passed {
                    PipelineStage::Signature
                } else {
                    PipelineStage::Finished
                };
            },
            _ => {
                let acceptance = acceptance_step(&self.results, &self.caps);
                self.steps.push(acceptance);
                self.stage = PipelineStage::Finished;
            },
        }
    }

    /// Records the replay registry's reply.
    pub fn record_replay_reply(&mut self, reply: Result<(), String>)
        requires
            old(self).wf(),
            old(self).stage is Replay,
        ensures
            final(self).wf(),
            final(self).caps == old(self).caps,
            final(self).legality == old(self).legality,
            final(self).results@ == old(self).results@,
            final(self).steps@.len() == 6,
            final(self).steps@.subrange(0, 5) == old(self).steps@,
            step_is(final(self).steps@[5], step_name(5), replay_failure(reply)),
            replay_failure(reply) is Some ==> final(self).stage is Finished,
            replay_failure(reply) is None ==> final(self).stage is SealRegistry,
    {
        let step = replay_step(&reply);
        let passed = step.passed;
        self.steps.push(step);
        self.stage = if passed {
            PipelineStage::SealRegistry
        } else {
            PipelineStage::Finished
        };
    }

    /// The outcome of a finished run: accepted exactly when its last step
    /// passed, else rejected with that step's error.
    pub fn finish(self) -> (r: ValidationResult)
        requires
            self.wf(),
            self.stage is Finished,
        ensures
            r.accepted == self.steps@.last().passed,
            r.steps@ == self.steps@,
            r.error == if r.accepted {
                None
            } else {
                self.steps@.last().error
            },
    {
        let last = self.steps.len() - 1;
        let accepted = self.steps[last].passed;
        let error = if accepted {
            None
        } else {
            match &self.steps[last].error {
                Some(e) => Some(e.clone()),
                None => None,
            }
        };
        ValidationResult { accepted, steps: self.steps, error }
    }
}

/// The event that a finished validation emits.
#[derive(Clone, Debug)]
pub enum ValidationEvent {
    /// The bundle was accepted.
    ProofAccepted {
        /// The source chain.
        chain: String,
        /// The block that the inclusion proof names.
        block_number: u64,
        /// The domain-separated hash of the inclusion proof.
        proof_hash: crate::hash::Hash,
        /// When the decision was made, in seconds since the Unix epoch.
        timestamp_secs: u64,
        /// What accepted it.
        source: String,
    },
    /// The bundle was rejected by a step other than the replay check.
    ProofRejected {
        /// The source chain.
        chain: String,
        /// The block that the inclusion proof names.
        block_number: u64,
        /// The domain-separated hash of the inclusion proof.
        proof_hash: crate::hash::Hash,
        /// When the decision was made, in seconds since the Unix epoch.
        timestamp_secs: u64,
        /// Why it was rejected.
        reason: String,
    },
    /// The replay check rejected the bundle.
    ReplayDetected {
        /// The source chain.
        chain: String,
        /// The block that the inclusion proof names.
        block_number: u64,
        /// The domain-separated hash of the inclusion proof.
        proof_hash: crate::hash::Hash,
        /// When the replay was detected, in seconds since the Unix epoch.
        timestamp_secs: u64,
    },
}

/// Whether a validation ended by failing its replay step.
pub open spec fn ended_by_replay(r: ValidationResult) -> bool {
    !r.accepted && r.steps@.len() > 0 && r.steps@.last().name@ == step_name(5)
}

/// The event of a finished validation of `bundle` from `source_chain`, at
/// `timestamp_secs`: acceptance, a detected replay when the replay step
/// rejected it, and otherwise a rejection with the validation's error
/// ("validation failed" when it has none).
pub fn validation_event(
    result: &ValidationResult,
    bundle: &ProofBundle,
    source_chain: &str,
    timestamp_secs: u64,
) -> (e: ValidationEvent)
    ensures
        match e {
            ValidationEvent::ProofAccepted { chain, block_number, proof_hash, timestamp_secs: t, source } => {
                &&& result.accepted
                &&& chain@ == source_chain@
                &&& block_number == bundle.inclusion_proof.block_number
                &&& proof_hash@ == tagged_hash_spec(proof_bundle_tag(), bundle.inclusion_proof.proof_bytes@)
                &&& t == timestamp_secs
                &&& source@ == "proof_pipeline"@
            },
            ValidationEvent::ReplayDetected { chain, block_number, proof_hash, timestamp_secs: t } => {
                &&& ended_by_replay(*result)
                &&& chain@ == source_chain@
                &&& block_number == bundle.inclusion_proof.block_number
                &&& proof_hash@ == tagged_hash_spec(proof_bundle_tag(), bundle.inclusion_proof.proof_bytes@)
                &&& t == timestamp_secs
            },
            ValidationEvent::ProofRejected { chain, block_number, proof_hash, timestamp_secs: t, reason } => {
                &&& !result.accepted
                &&& !ended_by_replay(*result)
                &&& chain@ == source_chain@
                &&& block_number == bundle.inclusion_proof.block_number
                &&& proof_hash@ == tagged_hash_spec(proof_bundle_tag(), bundle.inclusion_proof.proof_bytes@)
                &&& t == timestamp_secs
                &&& reason@ == match result.error {
                    Some(m) => m@,
                    None => "validation failed"@,
                }
            },
        },
{
    let proof_hash = proof_bundle_hash(bundle.inclusion_proof.proof_bytes.as_slice());
    let chain = String::from_str(source_chain);
    let block_number = bundle.inclusion_proof.block_number;
    if result.accepted {
        return ValidationEvent::ProofAccepted {
            chain,
            block_number,
            proof_hash,
            timestamp_secs,
            source: String::from_str("proof_pipeline"),
        };
    }
    let n = result.steps.len();
    if n > 0 && crate::text::same_text(result.steps[n - 1].name, "replay_validation") {
        return ValidationEvent::ReplayDetected { chain, block_number, proof_hash, timestamp_secs };
    }
    let reason = match &result.error {
        Some(m) => m.clone(),
        None => String::from_str("validation failed"),
    };
    ValidationEvent::ProofRejected { chain, block_number, proof_hash, timestamp_secs, reason }
}

/// An accepted validation ran all ten steps in the canonical order, and
/// every one of them passed.
pub proof fn lemma_accepted_validation_ran_every_step(v: ProofValidation)
    requires
        v.wf(),
        v.stage is Finished,
        v.steps@.last().passed,
    ensures
        v.steps@.len() == 10,
        forall|k: int| 0 <= k < 10 ==> (#[trigger] v.steps@[k]).passed && v.steps@[k].name@ == step_name(k),
{
}

/// Proof material as a chain adapter fetched it, before any check.
#[derive(Debug, Clone)]
pub struct ProofMaterialBundle {
    /// Raw inclusion proof bytes.
    pub inclusion_proof_bytes: Vec<u8>,
    /// Raw finality proof bytes.
    pub finality_proof_bytes: Vec<u8>,
    /// Raw zero-knowledge proof bytes, if the chain has them.
    pub zk_proof_bytes: Vec<u8>,
    /// Block header bytes.
    pub block_header: Vec<u8>,
    /// State root bytes.
    pub state_root: Vec<u8>,
    /// Additional chain-specific metadata.
    pub metadata: Vec<u8>,
}

/// Commitment levels of a Solana slot.
#[derive(Debug, Clone, Copy, PartialEq, Eq, Structural)]
pub enum SolanaCommitmentGrade {
    /// Processed by the node.
    Processed,
    /// Voted on by a supermajority.
    Confirmed,
    /// Rooted by a supermajority.
    Finalized,
}

/// Finality stages of an Ethereum block.
#[derive(Debug, Clone, Copy, PartialEq, Eq, Structural)]
pub enum EthereumFinalityStage {
    /// The safe head.
    SafeHead,
    /// A justified checkpoint.
    Justified,
    /// A finalized checkpoint.
    Finalized,
}

/// The finality that a chain reports.
#[derive(Debug, Clone, Copy)]
pub enum FinalityInfo {
    /// Probabilistic finality with confirmations.
    Probabilistic {
        /// Number of confirmations observed.
        confirmations: u64,
    },
    /// Deterministic finality with a checkpoint.
    Deterministic {
        /// Checkpoint hash.
        checkpoint_hash: crate::hash::Hash,
    },
    /// Optimistic finality of a slot.
    Optimistic {
        /// Slot number.
        slot: u64,
        /// Commitment grade of the slot.
        commitment: SolanaCommitmentGrade,
    },
    /// Ethereum finality stages.
    Ethereum {
        /// Safe head, justified or finalized.
        stage: EthereumFinalityStage,
        /// Checkpoint hash.
        checkpoint_hash: crate::hash::Hash,
    },
}

/// Chain metadata fetched by an adapter.
#[derive(Debug, Clone, Copy)]
pub struct ChainMetadata {
    /// Current block height.
    pub current_height: u64,
    /// Latest block hash.
    pub latest_hash: crate::hash::Hash,
    /// Current finality information.
    pub finality_info: FinalityInfo,
}

} // verus!
