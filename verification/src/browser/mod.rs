//! The pool of browser slots and the DevTools protocol messages.
pub mod cdp;
pub mod pool;
pub mod process;

