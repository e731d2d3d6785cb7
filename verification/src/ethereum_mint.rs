//! Minting sanads on Ethereum through the CSV mint contract.

use vstd::prelude::*;
use vstd::string::StringExecFns;

verus! {

/// Errors of Ethereum operations.
#[derive(Clone, Debug, PartialEq, Eq)]
pub enum EthereumError {
    /// The configuration does not allow the operation.
    ConfigError(String),
}

/// Why minting on Ethereum is refused.
pub open spec fn mint_unavailable_text() -> Seq<char> {
    "Ethereum mint_sanad is not yet fully implemented. This requires full transaction building with contract calls, gas estimation, fee calculation, and RPC broadcasting."@
}

/// Mints a sanad on Ethereum. Transaction building, signing and
/// broadcasting through the mint contract are not available, so the call
/// is refused whatever its arguments.
pub fn mint_sanad(
    rpc_url: &str,
    contract_address: &str,
    private_key: &str,
    sanad_id: crate::hash::Hash,
    commitment: crate::hash::Hash,
    source_chain: u8,
    source_seal_ref: crate::hash::Hash,
) -> (r: Result<String, EthereumError>)
    ensures
        r matches Err(EthereumError::ConfigError(m)) && m@ == mint_unavailable_text(),
{
    Err(
        EthereumError::ConfigError(
            String::from_str(
                "Ethereum mint_sanad is not yet fully implemented. This requires full transaction building with contract calls, gas estimation, fee calculation, and RPC broadcasting.",
            ),
        ),
    )
}

} // verus!
