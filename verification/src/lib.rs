//! Telemetry bridge core: the rules by which process and thread timing
//! metrics and thread listings cross a call boundary.
//!
//! The operating system and the managed caller stay outside. What is here is
//! the fixed-shape record encoding, the staged write into a caller-owned
//! buffer, the protocols that keep every acquired handle released, the thread
//! enumeration under a capacity limit, and the collapse of a tagged result
//! into the single integer that the caller receives.

pub mod entry;
pub mod enumerate;
pub mod handle;
pub mod marshal;
pub mod query;
pub mod record;
pub mod runtime;
pub mod status;
