//! The registry of chain adapters, and the data that the runtime exchanges
//! with them. The runtime reaches a chain only through its registered
//! adapter.

use vstd::prelude::*;
use vstd::string::StringExecFns;

use crate::strmap::StrMap;
use crate::verified::ChainCapabilities;

verus! {

/// Cross-chain transfer data passed to adapters.
#[derive(Debug, Clone)]
pub struct CrossChainTransfer {
    /// Unique transfer identifier.
    pub id: String,
    /// Source chain.
    pub source_chain: String,
    /// Destination chain.
    pub destination_chain: String,
    /// Lock transaction hash on the source chain.
    pub lock_tx_hash: Vec<u8>,
    /// Lock output index on the source chain.
    pub lock_output_index: u32,
    /// The sanad being transferred.
    pub sanad_id: crate::hash::Hash,
    /// The transition of the transfer.
    pub transition_id: Vec<u8>,
}

/// Result of locking a sanad on the source chain.
#[derive(Debug, Clone)]
pub struct LockResult {
    /// Transaction hash of the lock.
    pub tx_hash: String,
    /// Height of the block that includes the lock.
    pub block_height: u64,
}

/// Result of minting a sanad on the destination chain.
#[derive(Debug, Clone)]
pub struct MintResult {
    /// Transaction hash of the mint.
    pub tx_hash: String,
}

/// Status of a seal in a chain's registry.
#[derive(Debug, Clone, Copy, PartialEq, Eq, Structural)]
pub enum SealRegistryStatus {
    /// The seal has not been consumed.
    Available,
    /// The seal has been consumed: a replay.
    Consumed,
}

/// Errors of adapter operations.
#[derive(Debug, Clone, PartialEq, Eq)]
pub enum AdapterError {
    /// RPC or network error.
    RpcError(String),
    /// A transaction failed.
    TxFailed(String),
    /// A proof is invalid.
    InvalidProof(String),
    /// A seal was not found.
    SealNotFound(String),
    /// Another adapter error.
    Generic(String),
}

/// The text of an adapter error.
pub open spec fn adapter_error_text(e: AdapterError) -> Seq<char> {
    match e {
        AdapterError::RpcError(m) => "RPC error: "@ + m@,
        AdapterError::TxFailed(m) => "Transaction failed: "@ + m@,
        AdapterError::InvalidProof(m) => "Invalid proof: "@ + m@,
        AdapterError::SealNotFound(m) => "Seal not found: "@ + m@,
        AdapterError::Generic(m) => "Adapter error: "@ + m@,
    }
}

impl AdapterError {
    /// The text of the error.
    pub fn to_text(&self) -> (s: String)
        ensures
            s@ == adapter_error_text(*self),
    {
        let (prefix, m) = match self {
            AdapterError::RpcError(m) => ("RPC error: ", m),
            AdapterError::TxFailed(m) => ("Transaction failed: ", m),
            AdapterError::InvalidProof(m) => ("Invalid proof: ", m),
            AdapterError::SealNotFound(m) => ("Seal not found: ", m),
            AdapterError::Generic(m) => ("Adapter error: ", m),
        };
        let mut s = String::from_str(prefix);
        s.append(m.as_str());
        s
    }
}

/// What the registry asks of a chain adapter: the chain it serves and the
/// chain's capabilities. Adapters implement it beside their chain
/// operations.
pub trait ChainAdapter {
    /// The chain this adapter serves, as its contracts speak of it. An
    /// adapter that does not define it leaves it unspecified.
    closed spec fn chain_id_spec(&self) -> Seq<char> {
        arbitrary()
    }

    /// The capabilities of the chain, as its contracts speak of them. An
    /// adapter that does not define them leaves them unspecified.
    closed spec fn capabilities_spec(&self) -> ChainCapabilities {
        arbitrary()
    }

    /// The chain this adapter serves.
    fn chain_id(&self) -> (r: &str)
        ensures
            r@ == self.chain_id_spec(),
    ;

    /// The capabilities of the chain.
    fn capabilities(&self) -> (r: &ChainCapabilities)
        ensures
            *r == self.capabilities_spec(),
    ;
}

/// The registered adapters, by chain.
pub struct AdapterRegistryImpl<A> {
    adapters: StrMap<A>,
}

impl<A> View for AdapterRegistryImpl<A> {
    type V = Map<Seq<char>, A>;

    closed spec fn view(&self) -> Map<Seq<char>, A> {
        self.adapters.as_map()
    }
}

impl<A: ChainAdapter> AdapterRegistryImpl<A> {
    /// An empty registry.
    pub fn new() -> (r: AdapterRegistryImpl<A>)
        ensures
            r@ == Map::<Seq<char>, A>::empty(),
    {
        AdapterRegistryImpl { adapters: StrMap::new() }
    }

    /// Registers an adapter under the chain it reports, replacing any
    /// adapter registered for that chain.
    pub fn register(&mut self, adapter: A)
        ensures
            final(self)@ == old(self)@.insert(adapter.chain_id_spec(), adapter),
    {
        let chain = String::from_str(adapter.chain_id());
        self.adapters.set(chain, adapter);
    }

    /// The adapter registered for `chain_id`.
    pub fn get(&self, chain_id: &str) -> (r: Option<&A>)
        ensures
            match r {
                Some(a) => self@.contains_key(chain_id@) && *a == self@[chain_id@],
                None => !self@.contains_key(chain_id@),
            },
    {
        self.adapters.get(chain_id)
    }

    /// The capabilities that the adapter of `chain_id` reports; `None` for
    /// an unknown chain.
    pub fn capabilities(&self, chain_id: &str) -> (r: Option<&ChainCapabilities>)
        ensures
            r is Some <==> self@.contains_key(chain_id@),
            r matches Some(c) ==> *c == self@[chain_id@].capabilities_spec(),
    {
        match self.adapters.get(chain_id) {
            Some(a) => Some(a.capabilities()),
            None => None,
        }
    }
}

impl<A: ChainAdapter> Default for AdapterRegistryImpl<A> {
    fn default() -> (r: AdapterRegistryImpl<A>)
        ensures
            r@ == Map::<Seq<char>, A>::empty(),
    {
        AdapterRegistryImpl::new()
    }
}

} // verus!
