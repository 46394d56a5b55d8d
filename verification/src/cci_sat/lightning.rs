//! Lightning Network integration.

use vstd::prelude::*;
use crate::cci_sat::error::Result;

verus! {

/// Lightning Network channel.
pub struct LightningChannel;

/// Builder for Lightning channels.
pub struct ChannelBuilder;

impl LightningChannel {
    /// Creates a new channel builder.
    pub fn builder() -> (r: ChannelBuilder) {
        ChannelBuilder
    }
}

impl ChannelBuilder {
    /// Builds the channel, which always succeeds.
    pub fn build(self) -> (r: Result<LightningChannel>)
        ensures
            r is Ok,
    {
        Ok(LightningChannel)
    }
}

} // verus!
