//! Multi-chain wallet.

use vstd::prelude::*;
use crate::cci_sat::error::Result;

verus! {

/// Multi-chain wallet.
pub struct MultiChainWallet;

/// Wallet builder.
pub struct WalletBuilder;

impl MultiChainWallet {
    /// Creates a new wallet builder.
    pub fn builder() -> (r: WalletBuilder) {
        WalletBuilder
    }
}

impl WalletBuilder {
    /// Builds the wallet, which always succeeds.
    pub fn build(self) -> (r: Result<MultiChainWallet>)
        ensures
            r is Ok,
    {
        Ok(MultiChainWallet)
    }
}

} // verus!
