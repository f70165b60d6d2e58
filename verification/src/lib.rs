//! Binary-delta pipeline: computes compact deltas between two byte sequences,
//! ships them through a compressed transport, and verifies that a committed
//! patch reproduces the expected target exactly.
//!
//! The delta algorithm itself and the compressor are external collaborators;
//! this crate states what they return and proves the pipeline around them:
//! encoding, decoding, verification, metrics, and staged-output path
//! resolution, all over plain byte values. The surrounding process (memory
//! mapping inputs, writing outputs, atomic renames) lives outside the
//! verified library and hands byte values in and out.

pub mod codec;
pub mod errors;
pub mod pipeline;
pub mod utils;

pub use errors::Error;
pub use pipeline::BsdiffRust;
pub use pipeline::OptimizationConfig;
pub use utils::CompressionRatio;
pub use utils::PatchInfo;
