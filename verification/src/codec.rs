//! Delta codec adapter: wraps the external delta algorithm with a compressed
//! transport. The external calls stand behind trusted wrappers whose
//! contracts name their results; everything around them is verified.

use vstd::prelude::*;

use crate::errors::Error;

verus! {

/// The delta stream that the external suffix-sort algorithm derives from an
/// old and a new byte sequence. A function of the two sequences alone.
pub uninterp spec fn delta_of(old: Seq<u8>, new: Seq<u8>) -> Seq<u8>;

/// What applying a delta stream to an old byte sequence yields: the
/// reconstructed new sequence, or `None` where the stream is rejected
/// (format mismatch, truncation, or out-of-range references into `old`).
pub uninterp spec fn patch_outcome(old: Seq<u8>, delta: Seq<u8>) -> Option<Seq<u8>>;

/// The compressed frame that the external compressor produces from a byte
/// sequence at a given level. A function of the sequence and the level alone.
pub uninterp spec fn compress_of(data: Seq<u8>, level: int) -> Seq<u8>;

/// What decompressing a byte sequence yields: the decompressed payload, or
/// `None` where the sequence is not a well-formed compressed frame.
pub uninterp spec fn decompress_outcome(data: Seq<u8>) -> Option<Seq<u8>>;

/// The complete compressed patch produced from `old` and `new`: the external
/// delta stream, sent through the compressor at `level`.
pub open spec fn produce_delta_spec(old: Seq<u8>, new: Seq<u8>, level: int) -> Seq<u8> {
    compress_of(delta_of(old, new), level)
}

/// What applying a compressed patch to `old` yields: decompress the patch,
/// then apply the delta stream; `None` where either step is rejected.
pub open spec fn apply_delta_spec(old: Seq<u8>, patch: Seq<u8>) -> Option<Seq<u8>> {
    match decompress_outcome(patch) {
        Some(delta) => patch_outcome(old, delta),
        None => None,
    }
}

/// Relies on `bsdiff::diff`: derives a delta stream from `old` and `new`,
/// deterministic in its inputs, which `bsdiff::patch` applies to `old` to
/// return exactly `new` (the crate's documented round-trip contract). Its
/// only failure path is the writer, and writing to an in-memory vector is
/// infallible, so the call always succeeds here.
#[verifier::external_body]
fn run_delta_compute(old: &[u8], new: &[u8]) -> (r: Result<Vec<u8>, Error>)
    ensures
        r is Ok,
        r matches Ok(d) ==> d@ == delta_of(old@, new@)
            && patch_outcome(old@, d@) == Some(new@),
{
    let mut delta: Vec<u8> = Vec::new();
    match bsdiff::diff(old, new, &mut delta) {
        Ok(()) => Ok(delta),
        Err(_) => Err(Error::DeltaComputeError),
    }
}

/// Relies on `bsdiff::patch`: applies a delta stream to `old`, returning the
/// reconstructed bytes, or an error exactly where the stream is malformed;
/// deterministic in `old` and the stream.
#[verifier::external_body]
fn run_delta_apply(old: &[u8], delta: &[u8]) -> (r: Result<Vec<u8>, Error>)
    ensures
        r matches Ok(v) ==> patch_outcome(old@, delta@) == Some(v@),
        r matches Err(e) ==> patch_outcome(old@, delta@) is None
            && e == Error::DeltaApplyError,
{
    let mut reconstructed: Vec<u8> = Vec::new();
    let mut source: &[u8] = delta;
    match bsdiff::patch(old, &mut source, &mut reconstructed) {
        Ok(()) => Ok(reconstructed),
        Err(_) => Err(Error::DeltaApplyError),
    }
}

/// Relies on `zstd::stream::encode_all`: compresses bytes into a zstd frame,
/// deterministic in the bytes and the level, which
/// `zstd::stream::decode_all` decompresses back to exactly those bytes.
/// For every level in the accepted range, compression into an in-memory
/// vector succeeds.
#[verifier::external_body]
fn run_compress(data: &[u8], level: i32) -> (r: Result<Vec<u8>, Error>)
    requires
        1 <= level <= 22,
    ensures
        r is Ok,
        r matches Ok(c) ==> c@ == compress_of(data@, level as int)
            && decompress_outcome(c@) == Some(data@),
{
    match zstd::stream::encode_all(data, level) {
        Ok(compressed) => Ok(compressed),
        Err(_) => Err(Error::IoError),
    }
}

/// Relies on `zstd::stream::decode_all`: decompresses a zstd frame, returning
/// the payload, or an error exactly where the input is not a well-formed
/// frame; deterministic in the input bytes.
#[verifier::external_body]
fn run_decompress(data: &[u8]) -> (r: Result<Vec<u8>, Error>)
    ensures
        r matches Ok(v) ==> decompress_outcome(data@) == Some(v@),
        r matches Err(e) ==> decompress_outcome(data@) is None
            && e == Error::CorruptPatch,
{
    match zstd::stream::decode_all(data) {
        Ok(payload) => Ok(payload),
        Err(_) => Err(Error::CorruptPatch),
    }
}

/// Encode a delta from `old` to `new` as a compressed patch at the given
/// level. Always succeeds: the patch is exactly the compressed external
/// delta stream, and applying it to `old` reconstructs `new`.
pub fn encode_delta(old: &[u8], new: &[u8], level: i32) -> (r: Result<Vec<u8>, Error>)
    requires
        1 <= level <= 22,
    ensures
        r is Ok,
        r matches Ok(p) ==> p@ == produce_delta_spec(old@, new@, level as int)
            && apply_delta_spec(old@, p@) == Some(new@),
{
    match run_delta_compute(old, new) {
        Ok(delta) => match run_compress(delta.as_slice(), level) {
            Ok(patch_bytes) => Ok(patch_bytes),
            Err(e) => Err(e),
        },
        Err(e) => Err(e),
    }
}

/// Decode a compressed patch against `old`, reconstructing the new bytes.
/// Succeeds exactly where the patch decompresses and the delta stream
/// applies; the error tells the two failures apart.
pub fn decode_delta(old: &[u8], patch_bytes: &[u8]) -> (r: Result<Vec<u8>, Error>)
    ensures
        r matches Ok(v) ==> apply_delta_spec(old@, patch_bytes@) == Some(v@),
        r is Ok <==> apply_delta_spec(old@, patch_bytes@) is Some,
        r matches Err(e) ==> e == (if decompress_outcome(patch_bytes@) is None {
            Error::CorruptPatch
        } else {
            Error::DeltaApplyError
        }),
{
    match run_decompress(patch_bytes) {
        Ok(delta) => match run_delta_apply(old, delta.as_slice()) {
            Ok(reconstructed) => Ok(reconstructed),
            Err(e) => Err(e),
        },
        Err(e) => Err(e),
    }
}

} // verus!
