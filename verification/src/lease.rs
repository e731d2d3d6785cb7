//! Transfer leases: the single-owner guard under which a runtime executes a
//! transfer.

use vstd::prelude::*;

use crate::policy::RuntimePolicy;

verus! {

/// Transfer execution lease — single-owner execution guard.
#[derive(Clone, Copy, Debug)]
pub struct TransferLease {
    /// The sanad whose transfer this lease protects.
    pub transfer_id: crate::hash::Hash,
    /// Epoch counter against stale lease adoption.
    pub epoch: u64,
    /// The owning runtime instance.
    pub owner_runtime_id: u128,
    /// When the lease was acquired, in seconds since the Unix epoch.
    pub acquired_at_secs: u64,
    /// When the lease expires, in seconds since the Unix epoch.
    pub expires_at_secs: u64,
}

impl TransferLease {
    /// Whether the lease is active at `now_secs`: before it expires.
    pub fn is_active(&self, now_secs: u64) -> (r: bool)
        ensures
            r == (now_secs < self.expires_at_secs),
    {
        now_secs < self.expires_at_secs
    }
}

/// Execution context passed to mutating runtime operations.
#[derive(Clone, Debug)]
pub struct RuntimeExecutionContext {
    /// The lease that authorizes execution of the transfer.
    pub lease: TransferLease,
    /// The runtime instance performing the operation.
    pub runtime_instance: u128,
    /// The runtime policy in force.
    pub policy: RuntimePolicy,
}

} // verus!
