//! A verified Animated PNG (APNG) encoder.
//!
//! The library turns an ordered list of equally-shaped raster frames into
//! one APNG byte stream: it filters and deflates each frame's rows, frames
//! the results as length-prefixed, CRC-suffixed chunks, and interleaves
//! PNG and APNG chunks around a monotonically increasing sequence counter.
//! Every function carries a contract pinning the bytes it emits; deflate
//! and the CRC come from an outside crate through trusted wrappers.

#![verifier::loop_isolation(false)]

pub mod bytes;
pub mod chunk;
pub mod compress;
pub mod config;
pub mod encoder;
pub mod errors;
pub mod filter;
pub mod laws;
pub mod png;
