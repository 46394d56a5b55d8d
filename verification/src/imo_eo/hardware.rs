//! Hardware management.

use vstd::prelude::*;

verus! {

/// Hardware manager.
pub struct HardwareManager;

/// Maintenance scheduler.
pub struct MaintenanceScheduler;

/// Health monitor.
pub struct HealthMonitor;

impl HardwareManager {
    /// Creates a new hardware manager.
    pub fn new() -> (r: Self) {
        HardwareManager
    }
}

} // verus!
