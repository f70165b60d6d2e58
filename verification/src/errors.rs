use vstd::prelude::*;

verus! {

/// The failure taxonomy of the delta pipeline. Every fallible operation of the
/// library reports one of these variants; none is swallowed silently.
#[derive(Debug, Clone, Copy, PartialEq, Eq, Structural)]
pub enum Error {
    /// A required input file does not exist.
    NotFound,
    /// A path names a directory or other non-regular file.
    NotAFile,
    /// An open, read, write or rename failed, or a staged path could not be derived.
    IoError,
    /// The external delta algorithm failed while computing a delta.
    DeltaComputeError,
    /// The external delta algorithm rejected the delta stream while applying it.
    DeltaApplyError,
    /// The compressed patch stream could not be decompressed.
    CorruptPatch,
}

} // verus!
