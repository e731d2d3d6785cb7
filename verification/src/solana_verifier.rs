//! The Solana chain verifier: slot inclusion, probabilistic finality after
//! 32 confirmations, no zero-knowledge proofs, seals as program accounts,
//! and Ed25519 owner signatures.

use vstd::prelude::*;
use vstd::string::StringExecFns;

use crate::error::ProtocolError;
use crate::proof_bundle::{FinalityProof, ProofBundle};
use crate::sui_verifier::{accepted, missing_data, rejected, replay_found, seal_available};
use crate::text::contains_text;
use crate::verified::{
    no_components, FinalityStrength, InclusionStrength, VerificationAssurance, VerificationFailure,
    VerificationResult, VerifiedComponents,
};

verus! {

/// What `str::to_lowercase` gives for a text.
pub uninterp spec fn lowercase_spec(s: Seq<char>) -> Seq<char>;

/// The lowercase form of a text, from `str::to_lowercase`.
///
/// Trusted: the result is `lowercase_spec` of the text; nothing else is
/// claimed of the Unicode case mapping.
#[verifier::external_body]
fn lowercase_text(s: &str) -> (r: String)
    ensures
        r@ == lowercase_spec(s@),
{
    s.to_lowercase()
}

/// The confirmations that Solana finality requires.
pub const REQUIRED_CONFIRMATIONS: u64 = 32;

/// An account as the RPC reports it: its balance, the length of its data
/// and its owning program.
#[derive(Clone, Copy, Debug, PartialEq, Eq)]
pub struct SolanaAccount {
    /// Lamports held.
    pub lamports: u64,
    /// Bytes of account data.
    pub data_len: u64,
    /// The owning program.
    pub owner: [u8; 32],
}

/// Whether an account that exists shows its seal consumed: it was closed,
/// emptied, or handed back to the system program.
pub open spec fn account_consumed(a: SolanaAccount) -> bool {
    a.lamports == 0 || a.data_len == 0 || a.owner@ == Seq::new(32, |i: int| 0u8)
}

/// Whether an RPC error says that the account does not exist.
pub open spec fn account_missing(error: Seq<char>) -> bool {
    let l = lowercase_spec(error);
    ||| contains_text(l, "not found"@)
    ||| contains_text(l, "no account"@)
    ||| contains_text(l, "does not exist"@)
    ||| contains_text(l, "address not found"@)
}

/// Why Solana refuses a zero-knowledge proof.
pub open spec fn solana_zk_refusal() -> Seq<char> {
    "ZK proofs are not supported for Solana operations. Set zk_proof_data to empty for Solana transactions."@
}

/// The Solana chain verifier, over an RPC client that looks up seal accounts.
pub struct SolanaVerifier<R> {
    rpc: R,
}

impl<R> SolanaVerifier<R> {
    /// A verifier over `rpc`.
    pub fn new(rpc: R) -> (v: SolanaVerifier<R>)
        ensures
            v.rpc() == rpc,
    {
        SolanaVerifier { rpc }
    }

    /// The RPC client.
    pub closed spec fn rpc(&self) -> R {
        self.rpc
    }

    /// Borrows the RPC client.
    pub fn rpc_client(&self) -> (r: &R)
        ensures
            *r == self.rpc(),
    {
        &self.rpc
    }

    /// The address of a seal's account: the seal's 32 bytes.
    pub fn seal_id_to_pubkey(&self, seal_id: crate::hash::Hash) -> (k: [u8; 32])
        ensures
            k@ == seal_id@,
    {
        seal_id.0
    }

    /// Decides the inclusion check from the slot proof check's answer: an
    /// accepted proof anchors the transaction's Merkle path.
    pub fn verify_inclusion_outcome(&self, slot_proof_accepted: bool) -> (r: Result<
        VerificationResult,
        ProtocolError,
    >)
        ensures
            r == Ok::<VerificationResult, ProtocolError>(
                if slot_proof_accepted {
                    accepted(
                        VerificationAssurance::PartialCryptographic,
                        VerifiedComponents {
                            inclusion: InclusionStrength::AnchoredMerklePath,
                            ..no_components()
                        },
                    )
                } else {
                    rejected(VerificationAssurance::StructureChecked, VerificationFailure::InvalidMerklePath)
                },
            ),
    {
        if slot_proof_accepted {
            Ok(
                crate::verified::acceptance(
                    VerificationAssurance::PartialCryptographic,
                    VerifiedComponents {
                        inclusion: InclusionStrength::AnchoredMerklePath,
                        finality: FinalityStrength::Absent,
                        replay_checked: false,
                        ownership_signature: false,
                    },
                ),
            )
        } else {
            Ok(
                crate::verified::rejection(
                    VerificationAssurance::StructureChecked,
                    crate::verified::nothing_established(),
                    VerificationFailure::InvalidMerklePath,
                ),
            )
        }
    }

    /// Checks finality: `REQUIRED_CONFIRMATIONS` confirmations and
    /// non-empty finality data.
    pub fn verify_finality(&self, proof: &FinalityProof) -> (r: Result<VerificationResult, ProtocolError>)
        ensures
            proof.confirmations < REQUIRED_CONFIRMATIONS ==> r == Ok::<VerificationResult, ProtocolError>(
                rejected(
                    VerificationAssurance::StructureChecked,
                    VerificationFailure::FinalityNotReached {
                        required: REQUIRED_CONFIRMATIONS,
                        actual: proof.confirmations,
                    },
                ),
            ),
            proof.confirmations >= REQUIRED_CONFIRMATIONS && proof.finality_data@.len() == 0 ==> r is Ok
                && missing_data(r->Ok_0, "Finality data is empty"@),
            proof.confirmations >= REQUIRED_CONFIRMATIONS && proof.finality_data@.len() != 0 ==> r == Ok::<
                VerificationResult,
                ProtocolError,
            >(
                accepted(
                    VerificationAssurance::PartialCryptographic,
                    VerifiedComponents {
                        finality: FinalityStrength::Probabilistic { confirmations: proof.confirmations },
                        ..no_components()
                    },
                ),
            ),
    {
        if proof.confirmations >= REQUIRED_CONFIRMATIONS {
            if proof.finality_data.len() == 0 {
                return Ok(
                    crate::verified::rejection(
                        VerificationAssurance::StructureChecked,
                        crate::verified::nothing_established(),
                        VerificationFailure::MissingData(String::from_str("Finality data is empty")),
                    ),
                );
            }
            Ok(
                crate::verified::acceptance(
                    VerificationAssurance::PartialCryptographic,
                    VerifiedComponents {
                        inclusion: InclusionStrength::Absent,
                        finality: FinalityStrength::Probabilistic { confirmations: proof.confirmations },
                        replay_checked: false,
                        ownership_signature: false,
                    },
                ),
            )
        } else {
            Ok(
                crate::verified::rejection(
                    VerificationAssurance::StructureChecked,
                    crate::verified::nothing_established(),
                    VerificationFailure::FinalityNotReached {
                        required: REQUIRED_CONFIRMATIONS,
                        actual: proof.confirmations,
                    },
                ),
            )
        }
    }

    /// Solana has no zero-knowledge proofs: only an empty one passes.
    pub fn verify_zk(&self, proof: &[u8]) -> (r: Result<VerificationResult, ProtocolError>)
        ensures
            r is Ok,
            proof@.len() != 0 ==> (r->Ok_0.error matches Some(VerificationFailure::UnsupportedCapability(m))
                && m@ == solana_zk_refusal()) && !r->Ok_0.valid,
            proof@.len() == 0 ==> r->Ok_0 == accepted(
                VerificationAssurance::PartialCryptographic,
                no_components(),
            ),
    {
        Ok(
            crate::chain_checks::refuse_zk_proof(
                proof,
                "ZK proofs are not supported for Solana operations. Set zk_proof_data to empty for Solana transactions.",
            ),
        )
    }

    /// Decides the seal registry check from the RPC lookup of the seal's
    /// account: an account that exists is consumed when closed, emptied or
    /// owned by the system program; an error that says the account does
    /// not exist means consumed too; any other error is reported.
    pub fn seal_registry_verdict(&self, lookup: Result<SolanaAccount, String>) -> (r: Result<
        VerificationResult,
        ProtocolError,
    >)
        ensures
            match lookup {
                Ok(a) => r == Ok::<VerificationResult, ProtocolError>(
                    if account_consumed(a) {
                        replay_found()
                    } else {
                        seal_available()
                    },
                ),
                Err(e) => if account_missing(e@) {
                    r == Ok::<VerificationResult, ProtocolError>(replay_found())
                } else {
                    (r matches Err(ProtocolError::NetworkError(m)) && m@
                        == "Failed to query Solana seal registry: "@ + e@)
                },
            },
    {
        let checked = VerifiedComponents {
            inclusion: InclusionStrength::Absent,
            finality: FinalityStrength::Absent,
            replay_checked: true,
            ownership_signature: false,
        };
        match lookup {
            Ok(a) => {
                let mut system_owned = true;
                let mut i: usize = 0;
                while i < 32
                    invariant
                        i <= 32,
                        system_owned == (forall|j: int| 0 <= j < i ==> a.owner@[j] == 0u8),
                    decreases 32 - i,
                {
                    if a.owner[i] != 0 {
                        system_owned = false;
                    }
                    i = i + 1;
                }
                proof {
                    if system_owned {
                        assert(a.owner@ =~= Seq::new(32, |i: int| 0u8));
                    } else {
                        let j = choose|j: int| 0 <= j < 32 && a.owner@[j] != 0u8;
                        assert(a.owner@[j] != Seq::new(32, |i: int| 0u8)[j]);
                    }
                }
                if a.lamports == 0 || a.data_len == 0 || system_owned {
                    Ok(
                        crate::verified::rejection(
                            VerificationAssurance::StructureChecked,
                            checked,
                            VerificationFailure::ReplayDetected,
                        ),
                    )
                } else {
                    Ok(crate::verified::acceptance(VerificationAssurance::PartialCryptographic, checked))
                }
            },
            Err(e) => {
                let lower = crate::text::chars_of(lowercase_text(e.as_str()).as_str());
                let missing = crate::text::text_contains(&lower, &crate::text::chars_of("not found"))
                    || crate::text::text_contains(&lower, &crate::text::chars_of("no account"))
                    || crate::text::text_contains(&lower, &crate::text::chars_of("does not exist"))
                    || crate::text::text_contains(&lower, &crate::text::chars_of("address not found"));
                if missing {
                    Ok(
                        crate::verified::rejection(
                            VerificationAssurance::StructureChecked,
                            checked,
                            VerificationFailure::ReplayDetected,
                        ),
                    )
                } else {
                    let mut m = String::from_str("Failed to query Solana seal registry: ");
                    m.append(e.as_str());
                    Err(ProtocolError::NetworkError(m))
                }
            },
        }
    }

    /// Checks the owner's Ed25519 signatures over the bundle's transition
    /// graph.
    pub fn verify_signature(&self, bundle: &ProofBundle) -> (r: Result<VerificationResult, ProtocolError>)
        ensures
            crate::chain_checks::owner_signature_result(*bundle, r),
    {
        crate::chain_checks::verify_owner_signatures(bundle)
    }
}

} // verus!
