//! Cross-chain transfers: atomic swaps, Lightning channels, bridges and
//! multi-chain wallets.

use vstd::prelude::*;

pub mod atomic_swap;
pub mod bridge;
pub mod error;
pub mod lightning;
pub mod monitoring;
pub mod prelude;
pub mod protocols;
pub mod wallet;

pub use atomic_swap::{AtomicSwap, SwapBuilder, SwapExecution};
pub use bridge::{Bridge, BridgeProtocol, FraudProof};
pub use error::{Error, Result};
pub use lightning::{ChannelBuilder, LightningChannel};
pub use monitoring::Monitor;
pub use protocols::Protocol;
pub use wallet::{MultiChainWallet, WalletBuilder};

verus! {

/// Version of this component family.
pub const VERSION: &'static str = "0.1.0";

/// Prepares the component family for use; there is nothing to set up, so this always succeeds.
pub fn init() -> (r: Result<()>)
    ensures
        r is Ok,
{
    Ok(())
}

} // verus!
