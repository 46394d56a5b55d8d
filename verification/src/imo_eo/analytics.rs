//! Mining analytics.

use vstd::prelude::*;

verus! {

/// Analytics engine.
pub struct Analytics;

impl Analytics {
    /// Creates a new analytics instance.
    pub fn new() -> (r: Self) {
        Analytics
    }
}

} // verus!
