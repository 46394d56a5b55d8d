//! Carbon tracking.

use vstd::prelude::*;

verus! {

/// Environmental impact and carbon footprint tracking.
#[derive(Debug, Clone)]
pub struct CarbonTracker;

impl CarbonTracker {
    /// Creates a new carbon tracker.
    pub fn new() -> (r: Self) {
        CarbonTracker
    }
}

impl Default for CarbonTracker {
    fn default() -> (r: Self) {
        CarbonTracker::new()
    }
}

/// Emissions calculator.
pub struct EmissionsCalculator;

/// Offset manager.
pub struct OffsetManager;

} // verus!
