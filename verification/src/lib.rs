//! Verified core of a CAPTCHA-solving service built on a pool of headless
//! Chrome processes driven over the Chrome DevTools Protocol.
//!
//! The pool's slot bookkeeping, the protocol messages, the solvers' decisions,
//! the configuration and the answers of the HTTP interface are here; sockets,
//! processes, timers and the HTTP server are left to the caller.
pub mod api;
pub mod browser;
pub mod config;
pub mod duration;
pub mod encoding;
pub mod error;
pub mod json;
pub mod solvers;
pub mod text;

pub use browser::pool::{BrowserContext, CapacityStats, Page, PoolSlots};
pub use config::Config;
pub use error::PoolError;
pub use solvers::{IuamParams, IuamResult, IuamSolver, SolverError, TurnstileParams, TurnstileSolver};
