//! Errors of the transfer runtime and of its coordinator.

use vstd::prelude::*;
use vstd::string::StringExecFns;

use crate::proof_bundle::ReplayId;

verus! {

/// Errors that can occur during transfer execution.
#[derive(Debug, Clone)]
pub enum RuntimeError {
    /// Storage backend error.
    Storage(String),
    /// Adapter operation failed.
    Adapter(String),
    /// Transfer not found.
    TransferNotFound(String),
    /// Invalid transfer state.
    InvalidState(String),
    /// Concurrent coordinator conflict.
    ConcurrentConflict(String),
    /// Another coordinator holds the lease.
    LeaseConflict(String),
    /// Lease expired during a mint.
    LeaseExpired(String),
    /// Transfer already executed.
    ReplayDetected(ReplayId),
    /// Mint failed after insert; needs recovery.
    MintFailed {
        /// What went wrong.
        cause: String,
    },
    /// Finality not met for a chain.
    FinalityNotMet {
        /// The chain.
        chain: String,
        /// The guarantee that was observed.
        guarantee: String,
        /// The policy that was required.
        required: String,
    },
    /// No finality policy registered for a chain.
    NoPolicyForChain(String),
}

/// The text of a runtime error.
pub open spec fn runtime_error_text(e: RuntimeError) -> Seq<char> {
    match e {
        RuntimeError::Storage(m) => "Storage error: "@ + m@,
        RuntimeError::Adapter(m) => "Adapter error: "@ + m@,
        RuntimeError::TransferNotFound(m) => "Transfer not found: "@ + m@,
        RuntimeError::InvalidState(m) => "Invalid transfer state: "@ + m@,
        RuntimeError::ConcurrentConflict(m) => "Concurrent coordinator conflict: "@ + m@,
        RuntimeError::LeaseConflict(m) => "Lease conflict: "@ + m@,
        RuntimeError::LeaseExpired(m) => "Lease expired: "@ + m@,
        RuntimeError::ReplayDetected(_) => "Replay detected: transfer with this ReplayId already exists"@,
        RuntimeError::MintFailed { cause } => "Mint failed: "@ + cause@,
        RuntimeError::FinalityNotMet { chain, guarantee, required } => "Finality not met for chain "@
            + chain@ + ": guarantee="@ + guarantee@ + ", required="@ + required@,
        RuntimeError::NoPolicyForChain(c) => "No finality policy registered for chain "@ + c@,
    }
}

impl RuntimeError {
    /// The text of the error.
    pub fn to_text(&self) -> (s: String)
        ensures
            s@ == runtime_error_text(*self),
    {
        match self {
            RuntimeError::Storage(m) => String::from_str("Storage error: ").concat(m.as_str()),
            RuntimeError::Adapter(m) => String::from_str("Adapter error: ").concat(m.as_str()),
            RuntimeError::TransferNotFound(m) => String::from_str("Transfer not found: ").concat(
                m.as_str(),
            ),
            RuntimeError::InvalidState(m) => String::from_str("Invalid transfer state: ").concat(
                m.as_str(),
            ),
            RuntimeError::ConcurrentConflict(m) => String::from_str(
                "Concurrent coordinator conflict: ",
            ).concat(m.as_str()),
            RuntimeError::LeaseConflict(m) => String::from_str("Lease conflict: ").concat(m.as_str()),
            RuntimeError::LeaseExpired(m) => String::from_str("Lease expired: ").concat(m.as_str()),
            RuntimeError::ReplayDetected(_) => String::from_str(
                "Replay detected: transfer with this ReplayId already exists",
            ),
            RuntimeError::MintFailed { cause } => String::from_str("Mint failed: ").concat(
                cause.as_str(),
            ),
            RuntimeError::FinalityNotMet { chain, guarantee, required } => {
                let mut s = String::from_str("Finality not met for chain ");
                s.append(chain.as_str());
                s.append(": guarantee=");
                s.append(guarantee.as_str());
                s.append(", required=");
                s.append(required.as_str());
                s
            },
            RuntimeError::NoPolicyForChain(c) => String::from_str(
                "No finality policy registered for chain ",
            ).concat(c.as_str()),
        }
    }
}

/// Errors specific to the transfer coordinator.
#[derive(Debug, Clone)]
pub enum TransferCoordinatorError {
    /// Transfer already executed.
    ReplayDetected(ReplayId),
    /// Adapter not registered.
    UnknownChain(String),
    /// Unsupported operation for a chain.
    UnsupportedOperation(String),
    /// Verification failed its thresholds.
    VerificationFailed(String),
    /// Lock on the source chain failed.
    LockFailed(String),
    /// Finality verification failed.
    FinalityFailed(String),
    /// Proof building failed.
    ProofBuildFailed(String),
    /// Mint on the destination chain failed.
    MintFailed(String),
    /// Replay database error.
    ReplayDbError(String),
    /// Runtime error.
    RuntimeError(String),
}

impl TransferCoordinatorError {
    /// Wraps a runtime error, keeping its text.
    pub fn from_runtime_error(e: RuntimeError) -> (r: TransferCoordinatorError)
        ensures
            r matches TransferCoordinatorError::RuntimeError(m) && m@ == runtime_error_text(e),
    {
        TransferCoordinatorError::RuntimeError(e.to_text())
    }
}

} // verus!
