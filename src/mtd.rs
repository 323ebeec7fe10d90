//! Moving target defense: epochs, entropy sources, per-epoch parameters and
//! their manager.

pub mod entropy;
pub mod epoch;
pub mod manager;
pub mod warping;

pub use epoch::Epoch;
pub use manager::MTDManager;
pub use warping::WarpingParams;
