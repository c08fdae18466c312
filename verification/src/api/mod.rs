//! The HTTP interface: request and response bodies, and how each outcome is answered.
pub mod handlers;

