//! Common imports for users of cross-chain transfers.

pub use crate::cci_sat::error::{Error, Result};
pub use crate::cci_sat::atomic_swap::{AtomicSwap, SwapBuilder, SwapExecution};
pub use crate::cci_sat::lightning::{ChannelBuilder, LightningChannel};
pub use crate::cci_sat::bridge::{Bridge, BridgeProtocol, FraudProof};
pub use crate::cci_sat::wallet::{MultiChainWallet, WalletBuilder};
