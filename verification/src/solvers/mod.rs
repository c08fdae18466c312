//! Challenge solvers and the checks and page templates they rely on.
pub mod error;
pub mod iuam;
pub mod turnstile;
pub mod utils;

pub use error::SolverError;
pub use iuam::{IuamParams, IuamResult, IuamSolver};
pub use turnstile::{TurnstileParams, TurnstileSolver};
