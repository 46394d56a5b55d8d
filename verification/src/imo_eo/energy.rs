//! Energy management.

use vstd::prelude::*;

verus! {

/// Energy monitor.
pub struct EnergyMonitor;

/// Power manager.
pub struct PowerManager;

/// Efficiency tracker.
pub struct EfficiencyTracker;

impl EnergyMonitor {
    /// Creates a new energy monitor.
    pub fn new() -> (r: Self) {
        EnergyMonitor
    }
}

} // verus!
