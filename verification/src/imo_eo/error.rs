//! Error types for IMO-EO.

use vstd::prelude::*;
use vstd::string::StringExecFns;

verus! {

/// Result type alias for IMO-EO operations.
pub type Result<T> = core::result::Result<T, Error>;

/// Main error type for IMO-EO operations.
#[derive(Debug)]
pub enum Error {
    /// Mining optimization errors.
    MiningOptimization(String),
    /// Energy monitoring errors.
    EnergyMonitoring(String),
    /// Hardware management errors.
    Hardware(String),
    /// Pool management errors.
    PoolManagement(String),
    /// Analytics errors.
    Analytics(String),
    /// Carbon tracking errors.
    CarbonTracking(String),
    /// Configuration errors.
    Configuration(String),
    /// Bitcoin library errors.
    Bitcoin(String),
    /// HTTP errors.
    Http(String),
    /// Generic errors.
    Generic(String),
}

impl Error {
    /// Text that introduces the message of each variant.
    pub open spec fn prefix(self) -> Seq<char> {
        match self {
            Error::MiningOptimization(_) => "Mining optimization failed: "@,
            Error::EnergyMonitoring(_) => "Energy monitoring error: "@,
            Error::Hardware(_) => "Hardware management error: "@,
            Error::PoolManagement(_) => "Pool management error: "@,
            Error::Analytics(_) => "Analytics error: "@,
            Error::CarbonTracking(_) => "Carbon tracking error: "@,
            Error::Configuration(_) => "Configuration error: "@,
            Error::Bitcoin(_) => "Bitcoin error: "@,
            Error::Http(_) => "HTTP error: "@,
            Error::Generic(_) => "Generic error: "@,
        }
    }

    /// Free text carried by the variant.
    pub open spec fn detail(self) -> Seq<char> {
        match self {
            Error::MiningOptimization(m) => m@,
            Error::EnergyMonitoring(m) => m@,
            Error::Hardware(m) => m@,
            Error::PoolManagement(m) => m@,
            Error::Analytics(m) => m@,
            Error::CarbonTracking(m) => m@,
            Error::Configuration(m) => m@,
            Error::Bitcoin(m) => m@,
            Error::Http(m) => m@,
            Error::Generic(m) => m@,
        }
    }

    /// Creates a new mining optimization error.
    pub fn mining_optimization(msg: &str) -> (r: Error)
        ensures
            r matches Error::MiningOptimization(m) && m@ == msg@,
    {
        Error::MiningOptimization(String::from_str(msg))
    }

    /// Creates a new energy monitoring error.
    pub fn energy_monitoring(msg: &str) -> (r: Error)
        ensures
            r matches Error::EnergyMonitoring(m) && m@ == msg@,
    {
        Error::EnergyMonitoring(String::from_str(msg))
    }

    /// Creates a new generic error.
    pub fn generic(msg: &str) -> (r: Error)
        ensures
            r matches Error::Generic(m) && m@ == msg@,
    {
        Error::Generic(String::from_str(msg))
    }

    /// The message of this error: the variant's prefix followed by its detail.
    pub fn message(&self) -> (r: String)
        ensures
            r@ == self.prefix() + self.detail(),
    {
        match self {
            Error::MiningOptimization(m) => String::from_str("Mining optimization failed: ").concat(m.as_str()),
            Error::EnergyMonitoring(m) => String::from_str("Energy monitoring error: ").concat(m.as_str()),
            Error::Hardware(m) => String::from_str("Hardware management error: ").concat(m.as_str()),
            Error::PoolManagement(m) => String::from_str("Pool management error: ").concat(m.as_str()),
            Error::Analytics(m) => String::from_str("Analytics error: ").concat(m.as_str()),
            Error::CarbonTracking(m) => String::from_str("Carbon tracking error: ").concat(m.as_str()),
            Error::Configuration(m) => String::from_str("Configuration error: ").concat(m.as_str()),
            Error::Bitcoin(m) => String::from_str("Bitcoin error: ").concat(m.as_str()),
            Error::Http(m) => String::from_str("HTTP error: ").concat(m.as_str()),
            Error::Generic(m) => String::from_str("Generic error: ").concat(m.as_str()),
        }
    }
}

} // verus!
