//! Mining operations and energy optimization.

use vstd::prelude::*;

pub mod analytics;
pub mod carbon;
pub mod energy;
pub mod error;
pub mod hardware;
pub mod mining;
pub mod optimization;
pub mod prelude;

pub use analytics::Analytics;
pub use carbon::{CarbonTracker, EmissionsCalculator, OffsetManager};
pub use energy::{EfficiencyTracker, EnergyMonitor, PowerManager};
pub use error::{Error, Result};
pub use hardware::{HardwareManager, HealthMonitor, MaintenanceScheduler};
pub use mining::{MiningOptimizer, MiningOptimizerBuilder, MiningStrategy, PoolManager};
pub use optimization::{OptimizationStrategy, Optimizer, Recommendations};

verus! {

/// Version of this component family.
pub const VERSION: &'static str = "0.1.0";

/// Prepares the component family for use; there is nothing to set up, so this always succeeds.
pub fn init() -> (r: Result<()>)
    ensures
        r is Ok,
{
    Ok(())
}

} // verus!
