//! Small 32-bit fingerprints of names: byte-sequence hashes taken over a
//! half-open index range with a stride, adapters for text and for 16-bit
//! code units, and a hash that ignores a two-byte prefix.
//!
//! Beside the hashes stand a few helpers for names and times as a system
//! interface hands them out: comparison of characters that ignores case,
//! and time intervals counted in units of 100 nanoseconds.

pub mod foreign;
pub mod hash;
pub mod laws;
pub mod native_duration;
pub mod native_order;
pub mod sampling;
pub mod util;

pub use native_duration::NativeDuration;
