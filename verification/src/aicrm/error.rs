//! Errors of the risk-scoring engine.

use vstd::prelude::*;
use vstd::string::StringExecFns;

verus! {

/// Result type of the risk-scoring engine.
pub type Result<T> = core::result::Result<T, Error>;

/// Everything that can go wrong in the risk-scoring engine.
///
/// The last five variants are raised by the scoring pipeline itself; each of
/// them ends the run that raised it before anything reaches the audit ledger.
#[derive(Debug)]
pub enum Error {
    /// Risk analysis errors.
    RiskAnalysis(String),
    /// Compliance check errors.
    Compliance(String),
    /// Transaction monitoring errors.
    Monitoring(String),
    /// Machine learning model errors.
    MlModel(String),
    /// Data analytics errors.
    Analytics(String),
    /// Reporting errors.
    Reporting(String),
    /// Database errors.
    Database(String),
    /// Bitcoin library errors.
    Bitcoin(String),
    /// HTTP errors.
    Http(String),
    /// Generic errors.
    Generic(String),
    /// History that feature extraction depends on is not available.
    InsufficientData,
    /// The input that the named rule reads is structurally missing from the transaction.
    RuleEvaluationError { rule_id: u64 },
    /// No scoring model is registered under the requested version.
    UnknownModelVersion,
    /// An external predictor did not answer in time.
    ScoringTimeout,
    /// An audit entry was offered out of sequence order.
    SequenceConflict { expected: u64, found: u64 },
}

impl Error {
    /// Text that introduces the message of each variant.
    pub open spec fn prefix(self) -> Seq<char> {
        match self {
            Error::RiskAnalysis(_) => "Risk analysis failed: "@,
            Error::Compliance(_) => "Compliance check failed: "@,
            Error::Monitoring(_) => "Transaction monitoring error: "@,
            Error::MlModel(_) => "ML model error: "@,
            Error::Analytics(_) => "Analytics error: "@,
            Error::Reporting(_) => "Reporting error: "@,
            Error::Database(_) => "Database error: "@,
            Error::Bitcoin(_) => "Bitcoin error: "@,
            Error::Http(_) => "HTTP error: "@,
            Error::Generic(_) => "Generic error: "@,
            Error::InsufficientData => "Insufficient data"@,
            Error::RuleEvaluationError { .. } => "Rule evaluation failed"@,
            Error::UnknownModelVersion => "Unknown model version"@,
            Error::ScoringTimeout => "Scoring timed out"@,
            Error::SequenceConflict { .. } => "Sequence conflict"@,
        }
    }

    /// Free text carried by the variant; empty where it carries none.
    pub open spec fn detail(self) -> Seq<char> {
        match self {
            Error::RiskAnalysis(m) => m@,
            Error::Compliance(m) => m@,
            Error::Monitoring(m) => m@,
            Error::MlModel(m) => m@,
            Error::Analytics(m) => m@,
            Error::Reporting(m) => m@,
            Error::Database(m) => m@,
            Error::Bitcoin(m) => m@,
            Error::Http(m) => m@,
            Error::Generic(m) => m@,
            _ => Seq::<char>::empty(),
        }
    }

    /// Whether the caller may try again once the cause is resolved.
    ///
    /// Only a sequence conflict is final: it shows that two writers used one
    /// ledger, which no retry can mend.
    pub open spec fn spec_is_retryable(&self) -> bool {
        !(self is SequenceConflict)
    }

    /// Creates a new risk analysis error.
    pub fn risk_analysis(msg: &str) -> (r: Error)
        ensures
            r matches Error::RiskAnalysis(m) && m@ == msg@,
    {
        Error::RiskAnalysis(String::from_str(msg))
    }

    /// Creates a new compliance error.
    pub fn compliance(msg: &str) -> (r: Error)
        ensures
            r matches Error::Compliance(m) && m@ == msg@,
    {
        Error::Compliance(String::from_str(msg))
    }

    /// Creates a new generic error.
    pub fn generic(msg: &str) -> (r: Error)
        ensures
            r matches Error::Generic(m) && m@ == msg@,
    {
        Error::Generic(String::from_str(msg))
    }

    /// Whether the caller may try again once the cause is resolved.
    #[verifier::when_used_as_spec(spec_is_retryable)]
    pub fn is_retryable(&self) -> (r: bool)
        ensures
            r == self.spec_is_retryable(),
    {
        match self {
            Error::SequenceConflict { .. } => false,
            _ => true,
        }
    }

    /// The message of this error: the variant's prefix followed by its detail.
    pub fn message(&self) -> (r: String)
        ensures
            r@ == self.prefix() + self.detail(),
    {
        let (head, tail): (&str, &str) = match self {
            Error::RiskAnalysis(m) => ("Risk analysis failed: ", m.as_str()),
            Error::Compliance(m) => ("Compliance check failed: ", m.as_str()),
            Error::Monitoring(m) => ("Transaction monitoring error: ", m.as_str()),
            Error::MlModel(m) => ("ML model error: ", m.as_str()),
            Error::Analytics(m) => ("Analytics error: ", m.as_str()),
            Error::Reporting(m) => ("Reporting error: ", m.as_str()),
            Error::Database(m) => ("Database error: ", m.as_str()),
            Error::Bitcoin(m) => ("Bitcoin error: ", m.as_str()),
            Error::Http(m) => ("HTTP error: ", m.as_str()),
            Error::Generic(m) => ("Generic error: ", m.as_str()),
            Error::InsufficientData => ("Insufficient data", ""),
            Error::RuleEvaluationError { .. } => ("Rule evaluation failed", ""),
            Error::UnknownModelVersion => ("Unknown model version", ""),
            Error::ScoringTimeout => ("Scoring timed out", ""),
            Error::SequenceConflict { .. } => ("Sequence conflict", ""),
        };
        proof {
            reveal_strlit("");
            assert(""@ =~= Seq::<char>::empty());
        }
        String::from_str(head).concat(tail)
    }
}

} // verus!
