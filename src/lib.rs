//! Decision logic of the Becker dual-rate internal rate of return.
//!
//! The arithmetic of the method (the accumulated balance, the candidate
//! rates, the midpoints of a bracket) is done by the caller in double
//! precision. Every decision the method makes is taken here, from the
//! outcomes of `partial_cmp` on those values: input validation, the
//! degenerate shortcuts, the bound search and the bisection.

pub mod bisect;
pub mod bounds;
pub mod config;
pub mod error;
pub mod screen;

pub use config::IrrConfig;
pub use error::BeckerError;
