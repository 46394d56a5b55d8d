//! Error types for CCI-SAT.

use vstd::prelude::*;
use vstd::string::StringExecFns;

verus! {

/// Result type alias for CCI-SAT operations.
pub type Result<T> = core::result::Result<T, Error>;

/// Main error type for CCI-SAT operations.
#[derive(Debug)]
pub enum Error {
    /// Atomic swap errors.
    AtomicSwap(String),
    /// Lightning Network errors.
    Lightning(String),
    /// Bridge protocol errors.
    Bridge(String),
    /// Multi-chain wallet errors.
    Wallet(String),
    /// Cross-chain protocol errors.
    Protocol(String),
    /// Network communication errors.
    Network(String),
    /// Bitcoin library errors.
    Bitcoin(String),
    /// HTTP errors.
    Http(String),
    /// Generic errors.
    Generic(String),
}

impl Error {
    /// Text that introduces the message of each variant.
    pub open spec fn prefix(self) -> Seq<char> {
        match self {
            Error::AtomicSwap(_) => "Atomic swap failed: "@,
            Error::Lightning(_) => "Lightning Network error: "@,
            Error::Bridge(_) => "Bridge protocol error: "@,
            Error::Wallet(_) => "Multi-chain wallet error: "@,
            Error::Protocol(_) => "Cross-chain protocol error: "@,
            Error::Network(_) => "Network error: "@,
            Error::Bitcoin(_) => "Bitcoin error: "@,
            Error::Http(_) => "HTTP error: "@,
            Error::Generic(_) => "Generic error: "@,
        }
    }

    /// Free text carried by the variant.
    pub open spec fn detail(self) -> Seq<char> {
        match self {
            Error::AtomicSwap(m) => m@,
            Error::Lightning(m) => m@,
            Error::Bridge(m) => m@,
            Error::Wallet(m) => m@,
            Error::Protocol(m) => m@,
            Error::Network(m) => m@,
            Error::Bitcoin(m) => m@,
            Error::Http(m) => m@,
            Error::Generic(m) => m@,
        }
    }

    /// Creates a new atomic swap error.
    pub fn atomic_swap(msg: &str) -> (r: Error)
        ensures
            r matches Error::AtomicSwap(m) && m@ == msg@,
    {
        Error::AtomicSwap(String::from_str(msg))
    }

    /// Creates a new lightning error.
    pub fn lightning(msg: &str) -> (r: Error)
        ensures
            r matches Error::Lightning(m) && m@ == msg@,
    {
        Error::Lightning(String::from_str(msg))
    }

    /// Creates a new generic error.
    pub fn generic(msg: &str) -> (r: Error)
        ensures
            r matches Error::Generic(m) && m@ == msg@,
    {
        Error::Generic(String::from_str(msg))
    }

    /// The message of this error: the variant's prefix followed by its detail.
    pub fn message(&self) -> (r: String)
        ensures
            r@ == self.prefix() + self.detail(),
    {
        match self {
            Error::AtomicSwap(m) => String::from_str("Atomic swap failed: ").concat(m.as_str()),
            Error::Lightning(m) => String::from_str("Lightning Network error: ").concat(m.as_str()),
            Error::Bridge(m) => String::from_str("Bridge protocol error: ").concat(m.as_str()),
            Error::Wallet(m) => String::from_str("Multi-chain wallet error: ").concat(m.as_str()),
            Error::Protocol(m) => String::from_str("Cross-chain protocol error: ").concat(m.as_str()),
            Error::Network(m) => String::from_str("Network error: ").concat(m.as_str()),
            Error::Bitcoin(m) => String::from_str("Bitcoin error: ").concat(m.as_str()),
            Error::Http(m) => String::from_str("HTTP error: ").concat(m.as_str()),
            Error::Generic(m) => String::from_str("Generic error: ").concat(m.as_str()),
        }
    }
}

} // verus!
