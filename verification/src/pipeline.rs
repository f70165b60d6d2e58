//! Delta pipeline: the two top-level operations, their configuration, input
//! validation, and resolution of staged output paths. The pipeline works on
//! plain byte values; the surrounding process maps files in, hands the bytes
//! here, and writes the returned bytes out.

use vstd::prelude::*;

use crate::codec;
use crate::errors::Error;

verus! {

/// Per-operation tuning. Immutable once constructed and supplied per call,
/// never held as global state, so concurrent operations stay independent.
#[derive(Debug, Clone, Copy)]
pub struct OptimizationConfig {
    /// Compression level for the patch transport, in `1..=22`.
    pub compression_level: i32,
    /// Whether staged outputs should be placed in a fast (memory-backed)
    /// temporary directory before the atomic rename to their final path.
    pub use_fast_temp_dir: bool,
}

impl OptimizationConfig {
    /// The configuration is well-formed: the level lies in the accepted range.
    pub open spec fn wf(self) -> bool {
        1 <= self.compression_level <= 22
    }
}

impl Default for OptimizationConfig {
    /// The default configuration: a mid-level balancing speed and ratio, with
    /// the fast temporary directory enabled.
    fn default() -> (c: OptimizationConfig)
        ensures
            c.compression_level == 3,
            c.use_fast_temp_dir,
            c.wf(),
    {
        OptimizationConfig { compression_level: 3, use_fast_temp_dir: true }
    }
}

/// The separator byte `/` of path components.
pub open spec fn slash() -> u8 {
    47u8
}

/// The dot byte `.` of relative path components.
pub open spec fn dot() -> u8 {
    46u8
}

/// The index where the base name of a path starts: right after the last
/// separator, or at the start where the path holds none.
pub open spec fn base_start(p: Seq<u8>) -> int
    decreases p.len(),
{
    if p.len() == 0 {
        0
    } else if p.last() == slash() {
        p.len() as int
    } else {
        base_start(p.drop_last())
    }
}

/// A path with trailing separators and trailing `.` components removed, so
/// that its last component is the one a staged file is named from — the
/// component that `/usr/bin/` and `/usr/bin/.` share with `/usr/bin`.
pub open spec fn trim_end(p: Seq<u8>) -> Seq<u8>
    decreases p.len(),
{
    if p.len() == 0 {
        p
    } else if p.last() == slash() {
        trim_end(p.drop_last())
    } else if p.last() == dot() && (p.len() == 1 || p[p.len() - 2] == slash()) {
        trim_end(p.drop_last())
    } else {
        p
    }
}

/// The base name of a path: its last component, with trailing separators
/// and trailing `.` components ignored.
pub open spec fn base_name_of(p: Seq<u8>) -> Seq<u8> {
    let t = trim_end(p);
    t.subrange(base_start(t), t.len() as int)
}

/// A base name a staged file can be derived from: non-empty and not the
/// parent-directory component.
pub open spec fn valid_base_name(b: Seq<u8>) -> bool {
    &&& b.len() > 0
    &&& b != seq![46u8, 46u8]
}

/// The fixed prefix of staged file names: the bytes of `bsdiff_`.
pub open spec fn staged_prefix() -> Seq<u8> {
    seq![98u8, 115u8, 100u8, 105u8, 102u8, 102u8, 95u8]
}

/// The staged path for a final path `p` under the directory `dir`: the
/// directory, a separator unless `dir` is empty or already ends in one, the
/// staged-name prefix, and the base name of `p`.
pub open spec fn staged_path_spec(p: Seq<u8>, dir: Seq<u8>) -> Seq<u8> {
    let sep: Seq<u8> = if dir.len() == 0 || dir.last() == slash() {
        Seq::empty()
    } else {
        seq![slash()]
    };
    dir + sep + staged_prefix() + base_name_of(p)
}

/// Append every byte of `src` to `out`.
fn push_all(out: &mut Vec<u8>, src: &[u8])
    ensures
        final(out)@ == old(out)@ + src@,
{
    let mut i: usize = 0;
    while i < src.len()
        invariant
            i <= src.len(),
            out@ == old(out)@ + src@.subrange(0, i as int),
        decreases src.len() - i,
    {
        out.push(src[i]);
        i = i + 1;
        proof {
            assert(old(out)@ + src@.subrange(0, i as int)
                =~= (old(out)@ + src@.subrange(0, i - 1)).push(src@[i - 1]));
        }
    }
    proof {
        assert(src@.subrange(0, src@.len() as int) =~= src@);
    }
}

/// Append the staged-name prefix to `out`.
fn push_staged_prefix(out: &mut Vec<u8>)
    ensures
        final(out)@ == old(out)@ + staged_prefix(),
{
    out.push(98u8);
    out.push(115u8);
    out.push(100u8);
    out.push(105u8);
    out.push(102u8);
    out.push(102u8);
    out.push(95u8);
    proof {
        assert(out@ =~= old(out)@ + staged_prefix());
    }
}

/// Find how long `p` is once trailing separators and trailing `.`
/// components are stripped.
fn find_trimmed_end(p: &[u8]) -> (end: usize)
    ensures
        end <= p@.len(),
        trim_end(p@) == p@.subrange(0, end as int),
{
    let mut end: usize = p.len();
    proof {
        assert(p@.subrange(0, p@.len() as int) =~= p@);
    }
    while end > 0 && (p[end - 1] == 47u8 || (p[end - 1] == 46u8 && (end == 1 || p[end - 2]
        == 47u8)))
        invariant
            end <= p@.len(),
            trim_end(p@) == trim_end(p@.subrange(0, end as int)),
        decreases end,
    {
        proof {
            let prefix = p@.subrange(0, end as int);
            assert(prefix.last() == p@[end - 1]);
            if end >= 2 {
                assert(prefix[end - 2] == p@[end - 2]);
            }
            assert(prefix.drop_last() =~= p@.subrange(0, end - 1));
        }
        end = end - 1;
    }
    proof {
        let prefix = p@.subrange(0, end as int);
        if end > 0 {
            assert(prefix.last() == p@[end - 1]);
            if end >= 2 {
                assert(prefix[end - 2] == p@[end - 2]);
            }
        }
        assert(trim_end(prefix) == prefix);
    }
    end
}

/// Find the index where the base name starts within the first `end` bytes
/// of `p`.
fn find_base_start(p: &[u8], end: usize) -> (i: usize)
    requires
        end <= p@.len(),
    ensures
        i as int == base_start(p@.subrange(0, end as int)),
        i <= end,
{
    let mut i: usize = end;
    while i > 0 && p[i - 1] != 47u8
        invariant
            i <= end,
            end <= p@.len(),
            base_start(p@.subrange(0, end as int)) == base_start(p@.subrange(0, i as int)),
        decreases i,
    {
        proof {
            let prefix = p@.subrange(0, i as int);
            assert(prefix.last() == p@[i - 1]);
            assert(prefix.drop_last() =~= p@.subrange(0, i - 1));
        }
        i = i - 1;
    }
    proof {
        let prefix = p@.subrange(0, i as int);
        if i == 0 {
            assert(base_start(prefix) == 0);
        } else {
            assert(prefix.last() == p@[i - 1]);
            assert(base_start(prefix) == i as int);
        }
    }
    i
}

/// The delta pipeline: orchestrates the codec adapter over byte views of the
/// old and new inputs, and derives staged output locations.
pub struct BsdiffRust;

impl BsdiffRust {
    /// Produce a compressed patch from `old` to `new` with the default
    /// configuration. Always succeeds; the patch, applied to `old`,
    /// reconstructs `new` exactly.
    pub fn diff(old: &[u8], new: &[u8]) -> (r: Result<Vec<u8>, Error>)
        ensures
            r is Ok,
            r matches Ok(p) ==> p@ == codec::produce_delta_spec(old@, new@, 3)
                && codec::apply_delta_spec(old@, p@) == Some(new@),
    {
        let config = OptimizationConfig::default();
        Self::diff_optimized(old, new, &config)
    }

    /// Produce a compressed patch from `old` to `new` at the configured
    /// compression level. Always succeeds; the patch is exactly the external
    /// delta stream sent through the compressor, so repeated calls on equal
    /// inputs yield byte-identical patches; applying it to `old`
    /// reconstructs `new`.
    pub fn diff_optimized(old: &[u8], new: &[u8], config: &OptimizationConfig) -> (r: Result<
        Vec<u8>,
        Error,
    >)
        requires
            config.wf(),
        ensures
            r is Ok,
            r matches Ok(p) ==> p@ == codec::produce_delta_spec(
                old@,
                new@,
                config.compression_level as int,
            ) && codec::apply_delta_spec(old@, p@) == Some(new@),
    {
        codec::encode_delta(old, new, config.compression_level)
    }

    /// Apply a compressed patch to `old` with the default configuration,
    /// reconstructing the new bytes.
    pub fn patch(old: &[u8], patch_bytes: &[u8]) -> (r: Result<Vec<u8>, Error>)
        ensures
            r matches Ok(v) ==> codec::apply_delta_spec(old@, patch_bytes@) == Some(v@),
            r is Ok <==> codec::apply_delta_spec(old@, patch_bytes@) is Some,
            r matches Err(e) ==> e == (if codec::decompress_outcome(patch_bytes@) is None {
                Error::CorruptPatch
            } else {
                Error::DeltaApplyError
            }),
    {
        let config = OptimizationConfig::default();
        Self::patch_optimized(old, patch_bytes, &config)
    }

    /// Apply a compressed patch to `old`, reconstructing the new bytes.
    /// Succeeds exactly where the patch decompresses and the delta stream
    /// applies to `old`. The configuration only steers where the caller
    /// stages the reconstructed bytes; it does not affect the result.
    pub fn patch_optimized(old: &[u8], patch_bytes: &[u8], _config: &OptimizationConfig) -> (r:
        Result<Vec<u8>, Error>)
        ensures
            r matches Ok(v) ==> codec::apply_delta_spec(old@, patch_bytes@) == Some(v@),
            r is Ok <==> codec::apply_delta_spec(old@, patch_bytes@) is Some,
            r matches Err(e) ==> e == (if codec::decompress_outcome(patch_bytes@) is None {
                Error::CorruptPatch
            } else {
                Error::DeltaApplyError
            }),
    {
        codec::decode_delta(old, patch_bytes)
    }

    /// Decide whether a produce operation may start, given whether its two
    /// input files exist. Fails with `NotFound` exactly where one is missing.
    pub fn validate_files(old_exists: bool, new_exists: bool) -> (r: Result<(), Error>)
        ensures
            r is Ok <==> (old_exists && new_exists),
            r matches Err(e) ==> e == Error::NotFound,
    {
        if !old_exists {
            Err(Error::NotFound)
        } else if !new_exists {
            Err(Error::NotFound)
        } else {
            Ok(())
        }
    }

    /// Decide whether an apply operation may start, given whether the old
    /// file and the patch file exist. Fails with `NotFound` exactly where one
    /// is missing.
    pub fn validate_patch_files(old_exists: bool, patch_exists: bool) -> (r: Result<(), Error>)
        ensures
            r is Ok <==> (old_exists && patch_exists),
            r matches Err(e) ==> e == Error::NotFound,
    {
        if !old_exists {
            Err(Error::NotFound)
        } else if !patch_exists {
            Err(Error::NotFound)
        } else {
            Ok(())
        }
    }

    /// Resolve the staged output path for a final path. Without the fast
    /// temporary directory the staged path is the final path itself; with it,
    /// a deterministically named staged file under `fast_temp_dir`, derived
    /// from the final path's base name (its last component, ignoring
    /// trailing separators and `.` components). Fails exactly where no
    /// usable base name exists: nothing left after trimming, or a
    /// parent-directory component.
    pub fn get_optimal_output_path(
        original_path: &[u8],
        use_fast_temp: bool,
        fast_temp_dir: &[u8],
    ) -> (r: Result<Vec<u8>, Error>)
        ensures
            !use_fast_temp ==> (r matches Ok(p) && p@ == original_path@),
            use_fast_temp ==> match r {
                Ok(p) => valid_base_name(base_name_of(original_path@)) && p@ == staged_path_spec(
                    original_path@,
                    fast_temp_dir@,
                ),
                Err(e) => !valid_base_name(base_name_of(original_path@)) && e == Error::IoError,
            },
    {
        if !use_fast_temp {
            let mut out: Vec<u8> = Vec::new();
            push_all(&mut out, original_path);
            proof {
                assert(out@ =~= original_path@);
            }
            return Ok(out);
        }
        let end = find_trimmed_end(original_path);
        let start = find_base_start(original_path, end);
        let base_len: usize = end - start;
        proof {
            let t = trim_end(original_path@);
            assert(t == original_path@.subrange(0, end as int));
            assert(base_name_of(original_path@) =~= original_path@.subrange(
                start as int,
                end as int,
            ));
        }
        if base_len == 0 {
            return Err(Error::IoError);
        }
        if base_len == 2 && original_path[start] == 46u8 && original_path[start + 1] == 46u8 {
            proof {
                assert(base_name_of(original_path@) =~= seq![46u8, 46u8]);
            }
            return Err(Error::IoError);
        }
        proof {
            let base = base_name_of(original_path@);
            assert(base.len() == end - start);
            if base == seq![46u8, 46u8] {
                assert(base[0] == seq![46u8, 46u8][0]);
                assert(base[1] == seq![46u8, 46u8][1]);
                assert(base[0] == original_path@[start as int]);
                assert(base[1] == original_path@[start as int + 1]);
                assert(false);
            }
            assert(valid_base_name(base));
        }
        let mut out: Vec<u8> = Vec::new();
        push_all(&mut out, fast_temp_dir);
        let dir_len = fast_temp_dir.len();
        if dir_len > 0 && fast_temp_dir[dir_len - 1] != 47u8 {
            out.push(47u8);
        }
        push_staged_prefix(&mut out);
        let mut i: usize = start;
        while i < end
            invariant
                start <= i <= end,
                end <= original_path@.len(),
                out@ == fast_temp_dir@ + (if fast_temp_dir@.len() == 0 || fast_temp_dir@.last()
                    == slash() {
                    Seq::<u8>::empty()
                } else {
                    seq![slash()]
                }) + staged_prefix() + original_path@.subrange(start as int, i as int),
            decreases end - i,
        {
            out.push(original_path[i]);
            i = i + 1;
            proof {
                let sep: Seq<u8> = if fast_temp_dir@.len() == 0 || fast_temp_dir@.last()
                    == slash() {
                    Seq::<u8>::empty()
                } else {
                    seq![slash()]
                };
                assert(fast_temp_dir@ + sep + staged_prefix() + original_path@.subrange(
                    start as int,
                    i as int,
                ) =~= (fast_temp_dir@ + sep + staged_prefix() + original_path@.subrange(
                    start as int,
                    i - 1,
                )).push(original_path@[i - 1]));
            }
        }
        proof {
            assert(base_name_of(original_path@) =~= original_path@.subrange(
                start as int,
                end as int,
            ));
            assert(out@ =~= staged_path_spec(original_path@, fast_temp_dir@));
        }
        Ok(out)
    }
}

} // verus!
