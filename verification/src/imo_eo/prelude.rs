//! Common imports for users of mining operations.

pub use crate::imo_eo::analytics::{Analytics};
pub use crate::imo_eo::energy::{EfficiencyTracker, EnergyMonitor, PowerManager};
pub use crate::imo_eo::error::{Error, Result};
pub use crate::imo_eo::hardware::{HardwareManager, HealthMonitor, MaintenanceScheduler};
pub use crate::imo_eo::mining::{
    MiningOptimizer, MiningOptimizerBuilder, MiningStrategy, PoolManager,
};
pub use crate::imo_eo::optimization::{OptimizationStrategy, Optimizer, Recommendations};
