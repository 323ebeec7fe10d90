//! Errors, shared data types and the entropy capability.

pub mod errors;
pub mod traits;
pub mod types;
