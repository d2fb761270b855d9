//! The crates that the macros' expansions call at run time, re-exported so
//! that a crate using the macros needs no dependency of its own on them.

pub use dotenvy;
pub use tokio;
