//! Constants, the sponge hash and helpers on bytes.

pub mod constants;
pub mod hash;
pub mod compression;
