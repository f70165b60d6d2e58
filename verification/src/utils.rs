//! Verification and metrics: re-apply a committed patch and compare against
//! the expected target, and summarize patch size and compression ratio from
//! file sizes. Operates on plain byte values and sizes; the surrounding
//! process reads files and hands their contents or metadata here.

use vstd::prelude::*;

use crate::codec;
use crate::errors::Error;

verus! {

/// Read-only summary of a committed patch file.
#[derive(Debug, Clone, Copy)]
pub struct PatchInfo {
    /// The patch file's size in bytes.
    pub size: u64,
    /// Whether the patch is compressed. Always true: every patch the
    /// pipeline commits goes through the compressed transport.
    pub compressed: bool,
}

/// Compression metrics over the three files of one operation. The ratio is
/// kept as an exact integer in hundredths of a percent, so the library holds
/// no approximate arithmetic; callers may render it as they wish.
#[derive(Debug, Clone, Copy)]
pub struct CompressionRatio {
    /// Size of the old input file in bytes.
    pub old_size: u64,
    /// Size of the new input file in bytes.
    pub new_size: u64,
    /// Size of the committed patch file in bytes.
    pub patch_size: u64,
    /// `patch_size / (old_size + new_size) * 100`, in hundredths of a
    /// percent, rounded toward zero; `0` when both inputs are empty.
    pub ratio_scaled: u128,
}

/// The ratio of a patch size to the total input size, in hundredths of a
/// percent, rounded toward zero; zero where the total input size is zero.
pub open spec fn ratio_scaled_spec(old_size: u64, new_size: u64, patch_size: u64) -> int {
    if old_size + new_size == 0 {
        0
    } else {
        (patch_size * 10000) / (old_size + new_size)
    }
}

/// Summarize a committed patch of the given size. Every committed patch is
/// compressed, so the summary always reports it as such.
pub fn get_patch_info(patch_size: u64) -> (r: PatchInfo)
    ensures
        r.size == patch_size,
        r.compressed,
{
    PatchInfo { size: patch_size, compressed: true }
}

/// Compute the compression metrics from the three file sizes. The ratio is
/// never negative, and it is zero when both inputs are empty.
pub fn get_compression_ratio(old_size: u64, new_size: u64, patch_size: u64) -> (r:
    CompressionRatio)
    ensures
        r.old_size == old_size,
        r.new_size == new_size,
        r.patch_size == patch_size,
        r.ratio_scaled == ratio_scaled_spec(old_size, new_size, patch_size),
        old_size == 0 && new_size == 0 ==> r.ratio_scaled == 0,
{
    let total: u128 = old_size as u128 + new_size as u128;
    let ratio_scaled: u128 = if total == 0 {
        0
    } else {
        (patch_size as u128 * 10000) / total
    };
    CompressionRatio { old_size, new_size, patch_size, ratio_scaled }
}

/// Whether two byte slices hold the same bytes.
pub fn bytes_equal(a: &[u8], b: &[u8]) -> (r: bool)
    ensures
        r <==> a@ == b@,
{
    if a.len() != b.len() {
        return false;
    }
    let mut i: usize = 0;
    while i < a.len()
        invariant
            i <= a@.len(),
            a@.len() == b@.len(),
            forall|j: int| 0 <= j < i ==> a@[j] == b@[j],
        decreases a@.len() - i,
    {
        if a[i] != b[i] {
            return false;
        }
        i = i + 1;
    }
    proof {
        assert(a@ =~= b@);
    }
    true
}

/// Re-apply a patch to `old` in memory and compare the produced bytes
/// against `new`. Returns true exactly where applying the patch to `old`
/// would reconstruct `new` byte for byte; never produces output. Fails
/// exactly where the patch itself is rejected, telling a decompression
/// failure apart from a delta-stream rejection.
pub fn verify_patch(old: &[u8], new: &[u8], patch_bytes: &[u8]) -> (r: Result<bool, Error>)
    ensures
        (r matches Ok(b) && b) <==> codec::apply_delta_spec(old@, patch_bytes@) == Some(new@),
        r is Ok <==> codec::apply_delta_spec(old@, patch_bytes@) is Some,
        r matches Err(e) ==> e == (if codec::decompress_outcome(patch_bytes@) is None {
            Error::CorruptPatch
        } else {
            Error::DeltaApplyError
        }),
{
    match codec::decode_delta(old, patch_bytes) {
        Ok(produced) => Ok(bytes_equal(produced.as_slice(), new)),
        Err(e) => Err(e),
    }
}

/// Decide whether a path is an accessible input, given whether it exists and
/// whether it names a regular file. Fails with `NotFound` exactly where the
/// path does not exist, and with `NotAFile` exactly where it exists but is
/// not a regular file.
pub fn check_file_access(exists: bool, is_file: bool) -> (r: Result<(), Error>)
    ensures
        r is Ok <==> (exists && is_file),
        !exists ==> r == Err::<(), Error>(Error::NotFound),
        exists && !is_file ==> r == Err::<(), Error>(Error::NotAFile),
{
    if !exists {
        Err(Error::NotFound)
    } else if !is_file {
        Err(Error::NotAFile)
    } else {
        Ok(())
    }
}

/// Verification distinguishes targets: a patch that reconstructs `new` from
/// `old` does not also reconstruct any different target, so verifying it
/// against any `other != new` reports a mismatch.
pub proof fn lemma_verify_distinguishes(
    old: Seq<u8>,
    new: Seq<u8>,
    other: Seq<u8>,
    patch_bytes: Seq<u8>,
)
    requires
        codec::apply_delta_spec(old, patch_bytes) == Some(new),
        other != new,
    ensures
        codec::apply_delta_spec(old, patch_bytes) != Some(other),
{
}

/// Producing a patch is deterministic: any two patches produced from the
/// same old and new bytes at the same compression level are byte-identical,
/// so repeated runs overwrite the previous patch with the same bytes.
pub proof fn lemma_produce_deterministic(
    old: Seq<u8>,
    new: Seq<u8>,
    level: int,
    first: Seq<u8>,
    second: Seq<u8>,
)
    requires
        first == codec::produce_delta_spec(old, new, level),
        second == codec::produce_delta_spec(old, new, level),
    ensures
        first == second,
{
}

/// Deterministic sample data: `size` bytes cycling through all byte values.
pub fn generate_test_data(size: usize) -> (r: Vec<u8>)
    ensures
        r@.len() == size,
        forall|i: int| 0 <= i < size ==> r@[i] == (i % 256) as u8,
{
    let mut data: Vec<u8> = Vec::new();
    let mut i: usize = 0;
    while i < size
        invariant
            i <= size,
            data@.len() == i,
            forall|j: int| 0 <= j < i ==> data@[j] == (j % 256) as u8,
        decreases size - i,
    {
        data.push((i % 256) as u8);
        i = i + 1;
    }
    data
}

} // verus!
