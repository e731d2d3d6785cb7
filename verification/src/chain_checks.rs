//! Checks that the chain verifiers share: the owner's Ed25519 signatures
//! over a bundle's transition graph, and the rule that a chain without
//! zero-knowledge proofs accepts only an empty one.

use vstd::prelude::*;
use vstd::string::StringExecFns;

use crate::bundle_verifier::{encoded_key_len, encoded_validity, encoding_problem, first_malformed};
use crate::error::ProtocolError;
use crate::proof_bundle::ProofBundle;
use crate::signature::{first_false, invalid_signature_text, SignatureScheme};
use crate::verified::{
    no_components, FinalityStrength, InclusionStrength, VerificationAssurance, VerificationFailure,
    VerificationResult, VerifiedComponents,
};

verus! {

/// A check that failed on its structure alone, establishing nothing.
pub open spec fn structural_rejection(failure: VerificationFailure) -> VerificationResult {
    VerificationResult {
        valid: false,
        assurance: VerificationAssurance::StructureChecked,
        verified_components: no_components(),
        error: Some(failure),
    }
}

/// A passed check that establishes only the owner's signature.
pub open spec fn ownership_established() -> VerificationResult {
    VerificationResult {
        valid: true,
        assurance: VerificationAssurance::PartialCryptographic,
        verified_components: VerifiedComponents { ownership_signature: true, ..no_components() },
        error: None,
    }
}

/// Whether `r` is what the owner signature check gives for bundle `b`: a
/// structural rejection without signatures or with one that does not
/// parse, an error naming the first signature that does not verify, or
/// the established ownership.
pub open spec fn owner_signature_result(b: ProofBundle, r: Result<VerificationResult, ProtocolError>) -> bool {
    if b.signatures@.len() == 0 || first_malformed(b.signatures@, 0) is Some {
        r == Ok::<VerificationResult, ProtocolError>(
            structural_rejection(VerificationFailure::InvalidOwnershipSignature),
        )
    } else {
        match first_false(
            encoded_validity(b.signatures@, b.transition_dag.root_commitment@, SignatureScheme::Ed25519),
            0,
        ) {
            Some(i) => (r matches Err(ProtocolError::SignatureVerificationFailed(m)) && m@
                == "Signature verification failed: "@ + invalid_signature_text(i)),
            None => r == Ok::<VerificationResult, ProtocolError>(ownership_established()),
        }
    }
}

/// Verifies the bundle's signatures as Ed25519 signatures of the owner over
/// the transition graph's root commitment. A bundle without signatures, or
/// with one that does not parse, is rejected as a failed check; a signature
/// that does not verify is an error.
pub fn verify_owner_signatures(bundle: &ProofBundle) -> (r: Result<VerificationResult, ProtocolError>)
    ensures
        owner_signature_result(*bundle, r),
{
    if bundle.signatures.len() == 0 {
        return Ok(
            crate::verified::rejection(
                VerificationAssurance::StructureChecked,
                crate::verified::nothing_established(),
                VerificationFailure::InvalidOwnershipSignature,
            ),
        );
    }
    let ghost encs = bundle.signatures@;
    let mut i: usize = 0;
    while i < bundle.signatures.len()
        invariant
            i <= encs.len(),
            encs == bundle.signatures@,
            first_malformed(encs, 0) == first_malformed(encs, i as nat),
        decreases encs.len() - i,
    {
        let sig_bytes = &bundle.signatures[i];
        let malformed = if sig_bytes.len() < 4 {
            true
        } else {
            let pk_len: u64 = sig_bytes[0] as u64 + 256 * (sig_bytes[1] as u64) + 65536 * (
            sig_bytes[2] as u64) + 16777216 * (sig_bytes[3] as u64);
            proof {
                assert(sig_bytes@ == encs[i as int]@);
                assert(pk_len == encoded_key_len(sig_bytes@));
            }
            ((sig_bytes.len() - 4) as u64) < pk_len
        };
        proof {
            assert(sig_bytes@ == encs[i as int]@);
            assert(malformed == encoding_problem(encs[i as int]@) is Some);
        }
        if malformed {
            return Ok(
                crate::verified::rejection(
                    VerificationAssurance::StructureChecked,
                    crate::verified::nothing_established(),
                    VerificationFailure::InvalidOwnershipSignature,
                ),
            );
        }
        i = i + 1;
    }
    match crate::bundle_verifier::verify_bundle_signatures(bundle, SignatureScheme::Ed25519) {
        Ok(()) => Ok(
            crate::verified::acceptance(
                VerificationAssurance::PartialCryptographic,
                VerifiedComponents {
                    inclusion: InclusionStrength::Absent,
                    finality: FinalityStrength::Absent,
                    replay_checked: false,
                    ownership_signature: true,
                },
            ),
        ),
        Err(e) => Err(ProtocolError::SignatureVerificationFailed(e.to_text())),
    }
}

/// A zero-knowledge proof check on a chain without such proofs: only an
/// empty proof passes; `message` says why another is refused.
pub fn refuse_zk_proof(proof: &[u8], message: &str) -> (r: VerificationResult)
    ensures
        proof@.len() != 0 ==> (r.error matches Some(VerificationFailure::UnsupportedCapability(m))
            && m@ == message@) && !r.valid && r.assurance == VerificationAssurance::StructureChecked
            && r.verified_components == no_components(),
        proof@.len() == 0 ==> r == (VerificationResult {
            valid: true,
            assurance: VerificationAssurance::PartialCryptographic,
            verified_components: no_components(),
            error: None,
        }),
{
    if proof.len() != 0 {
        return crate::verified::rejection(
            VerificationAssurance::StructureChecked,
            crate::verified::nothing_established(),
            VerificationFailure::UnsupportedCapability(String::from_str(message)),
        );
    }
    crate::verified::acceptance(
        VerificationAssurance::PartialCryptographic,
        crate::verified::nothing_established(),
    )
}

} // verus!
