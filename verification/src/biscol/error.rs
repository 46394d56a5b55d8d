//! Error types for BiSCOL.

use vstd::prelude::*;
use vstd::string::StringExecFns;

verus! {

/// What can go wrong in elliptic-curve operations on secp256k1.
#[derive(Debug, Clone, Copy, PartialEq, Eq, Structural)]
pub enum Secp256k1Error {
    /// Signature failed verification.
    IncorrectSignature,
    /// Bad sized message.
    InvalidMessage,
    /// Bad public key.
    InvalidPublicKey,
    /// Bad signature.
    InvalidSignature,
    /// Bad secret key.
    InvalidSecretKey,
    /// Bad shared secret.
    InvalidSharedSecret,
    /// Bad recovery id.
    InvalidRecoveryId,
    /// Tried to add or multiply by an invalid tweak.
    InvalidTweak,
    /// Not enough memory was passed to context creation.
    NotEnoughMemory,
    /// Bad set of public keys.
    InvalidPublicKeySum,
    /// A parity value other than 0 or 1.
    InvalidParityValue,
    /// Bad EllSwift value.
    InvalidEllSwift,
}

impl Secp256k1Error {
    /// The text that describes the error.
    pub open spec fn spec_text(self) -> Seq<char> {
        match self {
            Secp256k1Error::IncorrectSignature => "signature failed verification"@,
            Secp256k1Error::InvalidMessage => "message was not 32 bytes (do you need to hash?)"@,
            Secp256k1Error::InvalidPublicKey => "malformed public key"@,
            Secp256k1Error::InvalidSignature => "malformed signature"@,
            Secp256k1Error::InvalidSecretKey => "malformed or out-of-range secret key"@,
            Secp256k1Error::InvalidSharedSecret => "malformed or out-of-range shared secret"@,
            Secp256k1Error::InvalidRecoveryId => "bad recovery id"@,
            Secp256k1Error::InvalidTweak => "bad tweak"@,
            Secp256k1Error::NotEnoughMemory => "not enough memory allocated"@,
            Secp256k1Error::InvalidPublicKeySum => "the sum of public keys was invalid or the input vector lengths was less than 1"@,
            Secp256k1Error::InvalidParityValue => "couldn't create parity"@,
            Secp256k1Error::InvalidEllSwift => "malformed EllSwift value"@,
        }
    }

    /// The text that describes the error.
    pub fn text(self) -> (r: &'static str)
        ensures
            r@ == self.spec_text(),
    {
        match self {
            Secp256k1Error::IncorrectSignature => "signature failed verification",
            Secp256k1Error::InvalidMessage => "message was not 32 bytes (do you need to hash?)",
            Secp256k1Error::InvalidPublicKey => "malformed public key",
            Secp256k1Error::InvalidSignature => "malformed signature",
            Secp256k1Error::InvalidSecretKey => "malformed or out-of-range secret key",
            Secp256k1Error::InvalidSharedSecret => "malformed or out-of-range shared secret",
            Secp256k1Error::InvalidRecoveryId => "bad recovery id",
            Secp256k1Error::InvalidTweak => "bad tweak",
            Secp256k1Error::NotEnoughMemory => "not enough memory allocated",
            Secp256k1Error::InvalidPublicKeySum => "the sum of public keys was invalid or the input vector lengths was less than 1",
            Secp256k1Error::InvalidParityValue => "couldn't create parity",
            Secp256k1Error::InvalidEllSwift => "malformed EllSwift value",
        }
    }
}

/// Result type alias for BiSCOL operations.
pub type Result<T> = core::result::Result<T, Error>;

/// Main error type for BiSCOL operations.
#[derive(Debug)]
pub enum Error {
    /// Script execution errors.
    ScriptExecution(String),
    /// Smart contract errors.
    SmartContract(String),
    /// Taproot operation errors.
    Taproot(String),
    /// Multi-signature errors.
    MultiSig(String),
    /// Zero-knowledge proof errors.
    ZkProof(String),
    /// Compliance check errors.
    Compliance(String),
    /// Bitcoin library errors.
    Bitcoin(String),
    /// Secp256k1 errors.
    Secp256k1(Secp256k1Error),
    /// Generic errors.
    Generic(String),
}

impl Error {
    /// Text that introduces the message of each variant.
    pub open spec fn prefix(self) -> Seq<char> {
        match self {
            Error::ScriptExecution(_) => "Script execution failed: "@,
            Error::SmartContract(_) => "Smart contract error: "@,
            Error::Taproot(_) => "Taproot operation failed: "@,
            Error::MultiSig(_) => "Multi-signature error: "@,
            Error::ZkProof(_) => "Zero-knowledge proof error: "@,
            Error::Compliance(_) => "Compliance check failed: "@,
            Error::Bitcoin(_) => "Bitcoin error: "@,
            Error::Secp256k1(_) => "Secp256k1 error: "@,
            Error::Generic(_) => "Generic error: "@,
        }
    }

    /// What follows the prefix: the free text carried by the variant, or the
    /// text of the curve error.
    pub open spec fn detail(self) -> Seq<char> {
        match self {
            Error::ScriptExecution(m) => m@,
            Error::SmartContract(m) => m@,
            Error::Taproot(m) => m@,
            Error::MultiSig(m) => m@,
            Error::ZkProof(m) => m@,
            Error::Compliance(m) => m@,
            Error::Bitcoin(m) => m@,
            Error::Secp256k1(e) => e.spec_text(),
            Error::Generic(m) => m@,
        }
    }

    /// Creates a new script execution error.
    pub fn script_execution(msg: &str) -> (r: Error)
        ensures
            r matches Error::ScriptExecution(m) && m@ == msg@,
    {
        Error::ScriptExecution(String::from_str(msg))
    }

    /// Creates a new smart contract error.
    pub fn smart_contract(msg: &str) -> (r: Error)
        ensures
            r matches Error::SmartContract(m) && m@ == msg@,
    {
        Error::SmartContract(String::from_str(msg))
    }

    /// Creates a new generic error.
    pub fn generic(msg: &str) -> (r: Error)
        ensures
            r matches Error::Generic(m) && m@ == msg@,
    {
        Error::Generic(String::from_str(msg))
    }

    /// The message of this error: the variant's prefix followed by its detail.
    pub fn message(&self) -> (r: String)
        ensures
            r@ == self.prefix() + self.detail(),
    {
        match self {
            Error::ScriptExecution(m) => String::from_str("Script execution failed: ").concat(m.as_str()),
            Error::SmartContract(m) => String::from_str("Smart contract error: ").concat(m.as_str()),
            Error::Taproot(m) => String::from_str("Taproot operation failed: ").concat(m.as_str()),
            Error::MultiSig(m) => String::from_str("Multi-signature error: ").concat(m.as_str()),
            Error::ZkProof(m) => String::from_str("Zero-knowledge proof error: ").concat(m.as_str()),
            Error::Compliance(m) => String::from_str("Compliance check failed: ").concat(m.as_str()),
            Error::Bitcoin(m) => String::from_str("Bitcoin error: ").concat(m.as_str()),
            Error::Secp256k1(e) => String::from_str("Secp256k1 error: ").concat(e.text()),
            Error::Generic(m) => String::from_str("Generic error: ").concat(m.as_str()),
        }
    }
}

impl From<Secp256k1Error> for Error {
    fn from(e: Secp256k1Error) -> (r: Error) {
        Error::Secp256k1(e)
    }
}

impl vstd::std_specs::convert::FromSpecImpl<Secp256k1Error> for Error {
    open spec fn obeys_from_spec() -> bool {
        true
    }

    open spec fn from_spec(e: Secp256k1Error) -> Error {
        Error::Secp256k1(e)
    }
}

} // verus!
