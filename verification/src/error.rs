//! Errors reported by the browser pool and the DevTools connection.
use vstd::prelude::*;
use vstd::string::*;
use crate::solvers::error::prefixed;

verus! {

/// `std::io::Error`, carried through unchanged.
#[verifier::external_type_specification]
#[verifier::external_body]
pub struct ExIoError(std::io::Error);

/// `serde_json::Error`, carried through unchanged.
#[verifier::external_type_specification]
#[verifier::external_body]
pub struct ExJsonError(serde_json::Error);

/// What can go wrong in the pool or on a DevTools connection.
#[derive(Debug)]
pub enum PoolError {
    CapacityExhausted,
    ProcessCrashed(String),
    ProcessSpawnError(String),
    CdpConnectionError(String),
    CdpProtocolError(String),
    WebSocketError(String),
    Timeout(String),
    NavigationFailed(String),
    ScriptExecutionFailed(String),
    IoError(std::io::Error),
    JsonError(serde_json::Error),
    InvalidConfig(String),
    ContextNotFound,
    PageNotFound,
}

/// Model of a [`PoolError`]; the I/O and JSON variants keep only their kind.
pub enum PoolFault {
    CapacityExhausted,
    ProcessCrashed(Seq<char>),
    ProcessSpawnError(Seq<char>),
    CdpConnectionError(Seq<char>),
    CdpProtocolError(Seq<char>),
    WebSocketError(Seq<char>),
    Timeout(Seq<char>),
    NavigationFailed(Seq<char>),
    ScriptExecutionFailed(Seq<char>),
    IoError,
    JsonError,
    InvalidConfig(Seq<char>),
    ContextNotFound,
    PageNotFound,
}

impl View for PoolError {
    type V = PoolFault;

    open spec fn view(&self) -> PoolFault {
        match self {
            PoolError::CapacityExhausted => PoolFault::CapacityExhausted,
            PoolError::ProcessCrashed(s) => PoolFault::ProcessCrashed(s@),
            PoolError::ProcessSpawnError(s) => PoolFault::ProcessSpawnError(s@),
            PoolError::CdpConnectionError(s) => PoolFault::CdpConnectionError(s@),
            PoolError::CdpProtocolError(s) => PoolFault::CdpProtocolError(s@),
            PoolError::WebSocketError(s) => PoolFault::WebSocketError(s@),
            PoolError::Timeout(s) => PoolFault::Timeout(s@),
            PoolError::NavigationFailed(s) => PoolFault::NavigationFailed(s@),
            PoolError::ScriptExecutionFailed(s) => PoolFault::ScriptExecutionFailed(s@),
            PoolError::IoError(_) => PoolFault::IoError,
            PoolError::JsonError(_) => PoolFault::JsonError,
            PoolError::InvalidConfig(s) => PoolFault::InvalidConfig(s@),
            PoolError::ContextNotFound => PoolFault::ContextNotFound,
            PoolError::PageNotFound => PoolFault::PageNotFound,
        }
    }
}

impl PoolFault {
    /// The fixed text that starts the message of an error.
    pub open spec fn lead(self) -> Seq<char> {
        match self {
            PoolFault::CapacityExhausted => "Pool capacity exhausted"@,
            PoolFault::ProcessCrashed(_) => "Browser process crashed: "@,
            PoolFault::ProcessSpawnError(_) => "Failed to spawn Chrome process: "@,
            PoolFault::CdpConnectionError(_) => "CDP connection error: "@,
            PoolFault::CdpProtocolError(_) => "CDP protocol error: "@,
            PoolFault::WebSocketError(_) => "WebSocket error: "@,
            PoolFault::Timeout(_) => "Timeout: "@,
            PoolFault::NavigationFailed(_) => "Navigation failed: "@,
            PoolFault::ScriptExecutionFailed(_) => "Script execution failed: "@,
            PoolFault::IoError => "IO error: "@,
            PoolFault::JsonError => "JSON error: "@,
            PoolFault::InvalidConfig(_) => "Invalid configuration: "@,
            PoolFault::ContextNotFound => "Context not found"@,
            PoolFault::PageNotFound => "Page not found"@,
        }
    }

    /// The text that follows the lead, for the variants that carry one.
    pub open spec fn detail(self) -> Seq<char> {
        match self {
            PoolFault::ProcessCrashed(s) => s,
            PoolFault::ProcessSpawnError(s) => s,
            PoolFault::CdpConnectionError(s) => s,
            PoolFault::CdpProtocolError(s) => s,
            PoolFault::WebSocketError(s) => s,
            PoolFault::Timeout(s) => s,
            PoolFault::NavigationFailed(s) => s,
            PoolFault::ScriptExecutionFailed(s) => s,
            PoolFault::InvalidConfig(s) => s,
            _ => Seq::empty(),
        }
    }
}

/// Text of an I/O error, from its `Display` implementation.
#[verifier::external_body]
fn io_error_text(e: &std::io::Error) -> String {
    e.to_string()
}

/// Text of a JSON error, from its `Display` implementation.
#[verifier::external_body]
fn json_error_text(e: &serde_json::Error) -> String {
    e.to_string()
}

impl PoolError {
    /// The human-readable text of this error: its lead followed by its detail;
    /// for I/O and JSON errors, the lead followed by the underlying error's text.
    pub fn message(&self) -> (r: String)
        ensures
            match self@ {
                PoolFault::IoError | PoolFault::JsonError => self@.lead().len() <= r@.len()
                    && r@.subrange(0, self@.lead().len() as int) == self@.lead(),
                _ => r@ == self@.lead() + self@.detail(),
            },
    {
        match self {
            PoolError::CapacityExhausted => {
                let r = String::from_str("Pool capacity exhausted");
                assert(r@ + Seq::<char>::empty() =~= r@);
                r
            },
            PoolError::ProcessCrashed(s) => prefixed("Browser process crashed: ", s.as_str()),
            PoolError::ProcessSpawnError(s) => prefixed("Failed to spawn Chrome process: ", s.as_str()),
            PoolError::CdpConnectionError(s) => prefixed("CDP connection error: ", s.as_str()),
            PoolError::CdpProtocolError(s) => prefixed("CDP protocol error: ", s.as_str()),
            PoolError::WebSocketError(s) => prefixed("WebSocket error: ", s.as_str()),
            PoolError::Timeout(s) => prefixed("Timeout: ", s.as_str()),
            PoolError::NavigationFailed(s) => prefixed("Navigation failed: ", s.as_str()),
            PoolError::ScriptExecutionFailed(s) => prefixed("Script execution failed: ", s.as_str()),
            PoolError::IoError(e) => {
                let t = io_error_text(e);
                let r = prefixed("IO error: ", t.as_str());
                assert(r@.subrange(0, "IO error: "@.len() as int) =~= "IO error: "@);
                r
            },
            PoolError::JsonError(e) => {
                let t = json_error_text(e);
                let r = prefixed("JSON error: ", t.as_str());
                assert(r@.subrange(0, "JSON error: "@.len() as int) =~= "JSON error: "@);
                r
            },
            PoolError::InvalidConfig(s) => prefixed("Invalid configuration: ", s.as_str()),
            PoolError::ContextNotFound => {
                let r = String::from_str("Context not found");
                assert(r@ + Seq::<char>::empty() =~= r@);
                r
            },
            PoolError::PageNotFound => {
                let r = String::from_str("Page not found");
                assert(r@ + Seq::<char>::empty() =~= r@);
                r
            },
        }
    }
}

} // verus!
