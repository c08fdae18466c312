//! Errors reported by the solvers.
use vstd::prelude::*;
use vstd::string::*;

verus! {

/// What can go wrong while solving a challenge.
#[derive(Debug)]
pub enum SolverError {
    PoolError(String),
    CdpError(String),
    Timeout,
    InvalidSitekey(String),
    TurnstileNotLoaded,
    TokenExtractionFailed(String),
    NavigationFailed(String),
    ScriptInjectionFailed(String),
    InvalidApiResponse,
    ChallengeFailed(String),
    NetworkError(String),
    ConfigError(String),
}

/// Model of a [`SolverError`], with its texts as character sequences.
pub enum SolverFault {
    PoolError(Seq<char>),
    CdpError(Seq<char>),
    Timeout,
    InvalidSitekey(Seq<char>),
    TurnstileNotLoaded,
    TokenExtractionFailed(Seq<char>),
    NavigationFailed(Seq<char>),
    ScriptInjectionFailed(Seq<char>),
    InvalidApiResponse,
    ChallengeFailed(Seq<char>),
    NetworkError(Seq<char>),
    ConfigError(Seq<char>),
}

impl View for SolverError {
    type V = SolverFault;

    open spec fn view(&self) -> SolverFault {
        match self {
            SolverError::PoolError(s) => SolverFault::PoolError(s@),
            SolverError::CdpError(s) => SolverFault::CdpError(s@),
            SolverError::Timeout => SolverFault::Timeout,
            SolverError::InvalidSitekey(s) => SolverFault::InvalidSitekey(s@),
            SolverError::TurnstileNotLoaded => SolverFault::TurnstileNotLoaded,
            SolverError::TokenExtractionFailed(s) => SolverFault::TokenExtractionFailed(s@),
            SolverError::NavigationFailed(s) => SolverFault::NavigationFailed(s@),
            SolverError::ScriptInjectionFailed(s) => SolverFault::ScriptInjectionFailed(s@),
            SolverError::InvalidApiResponse => SolverFault::InvalidApiResponse,
            SolverError::ChallengeFailed(s) => SolverFault::ChallengeFailed(s@),
            SolverError::NetworkError(s) => SolverFault::NetworkError(s@),
            SolverError::ConfigError(s) => SolverFault::ConfigError(s@),
        }
    }
}

impl SolverFault {
    /// The human-readable text of an error.
    pub open spec fn message(self) -> Seq<char> {
        match self {
            SolverFault::PoolError(s) => "Pool error: "@ + s,
            SolverFault::CdpError(s) => "CDP error: "@ + s,
            SolverFault::Timeout => "Timeout waiting for token"@,
            SolverFault::InvalidSitekey(s) => "Invalid sitekey: "@ + s,
            SolverFault::TurnstileNotLoaded => "Turnstile not loaded on page"@,
            SolverFault::TokenExtractionFailed(s) => "Failed to get token: "@ + s,
            SolverFault::NavigationFailed(s) => "Page navigation failed: "@ + s,
            SolverFault::ScriptInjectionFailed(s) => "Script injection failed: "@ + s,
            SolverFault::InvalidApiResponse => "Invalid response from Turnstile API"@,
            SolverFault::ChallengeFailed(s) => "Challenge failed: "@ + s,
            SolverFault::NetworkError(s) => "Network error: "@ + s,
            SolverFault::ConfigError(s) => "Configuration error: "@ + s,
        }
    }
}

/// `prefix` followed by `detail`.
pub fn prefixed(prefix: &str, detail: &str) -> (r: String)
    ensures
        r@ == prefix@ + detail@,
{
    let mut r = String::from_str(prefix);
    r.append(detail);
    r
}

impl SolverError {
    /// The human-readable text of this error.
    pub fn message(&self) -> (r: String)
        ensures
            r@ == self@.message(),
    {
        match self {
            SolverError::PoolError(s) => prefixed("Pool error: ", s.as_str()),
            SolverError::CdpError(s) => prefixed("CDP error: ", s.as_str()),
            SolverError::Timeout => String::from_str("Timeout waiting for token"),
            SolverError::InvalidSitekey(s) => prefixed("Invalid sitekey: ", s.as_str()),
            SolverError::TurnstileNotLoaded => String::from_str("Turnstile not loaded on page"),
            SolverError::TokenExtractionFailed(s) => prefixed("Failed to get token: ", s.as_str()),
            SolverError::NavigationFailed(s) => prefixed("Page navigation failed: ", s.as_str()),
            SolverError::ScriptInjectionFailed(s) => prefixed("Script injection failed: ", s.as_str()),
            SolverError::InvalidApiResponse => String::from_str("Invalid response from Turnstile API"),
            SolverError::ChallengeFailed(s) => prefixed("Challenge failed: ", s.as_str()),
            SolverError::NetworkError(s) => prefixed("Network error: ", s.as_str()),
            SolverError::ConfigError(s) => prefixed("Configuration error: ", s.as_str()),
        }
    }
}

} // verus!
