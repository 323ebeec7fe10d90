//! Constraint systems, configuration, provers and the epoch-bound proof envelope.

pub mod air;
pub mod config;
pub mod integrated;
pub mod prover;
pub mod range_air;

pub use air::{AirType, SimpleAir};
pub use config::StarkConfig;
pub use prover::{MTDProver, MTDVerifier};
