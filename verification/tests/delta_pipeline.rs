use bsdiff_rust::{BsdiffRust, Error, OptimizationConfig};
use bsdiff_rust::utils::{generate_test_data, verify_patch};

#[test]
fn test_optimized_diff_patch() {
    let old_content = b"Hello World! This is the old version with some content.";
    let new_content = b"Hello World! This is the new version with more content and changes.";

    let patch = BsdiffRust::diff_optimized(old_content, new_content, &OptimizationConfig::default())
        .unwrap();
    let generated_content =
        BsdiffRust::patch_optimized(old_content, &patch, &OptimizationConfig::default()).unwrap();

    assert_eq!(generated_content, new_content);
}

#[test]
fn test_default_methods() {
    let old_content = b"Test content for default methods.";
    let new_content = b"Test content for default methods with changes.";

    let patch = BsdiffRust::diff(old_content, new_content).unwrap();
    let generated_content = BsdiffRust::patch(old_content, &patch).unwrap();

    assert_eq!(generated_content, new_content);
}

#[test]
fn test_scenario_produce_apply_verify() {
    let old_content = b"Hello World! old version.";
    let new_content = b"Hello World! new version with extra content.";

    let patch = BsdiffRust::diff(old_content, new_content).unwrap();
    assert!(patch.len() < old_content.len() + new_content.len());
    assert_ne!(patch.as_slice(), &new_content[..]);

    let generated = BsdiffRust::patch(old_content, &patch).unwrap();
    assert_eq!(generated, new_content);

    assert_eq!(verify_patch(old_content, new_content, &patch), Ok(true));
    assert_eq!(verify_patch(old_content, b"different text", &patch), Ok(false));
}

#[test]
fn test_round_trip_empty_old() {
    let old_content = b"";
    let new_content = b"freshly written";
    let patch = BsdiffRust::diff(old_content, new_content).unwrap();
    let generated = BsdiffRust::patch(old_content, &patch).unwrap();
    assert_eq!(generated, new_content);
}

#[test]
fn test_round_trip_empty_new() {
    let old_content = b"about to vanish";
    let new_content = b"";
    let patch = BsdiffRust::diff(old_content, new_content).unwrap();
    let generated = BsdiffRust::patch(old_content, &patch).unwrap();
    assert_eq!(generated, new_content);
}

#[test]
fn test_round_trip_both_empty() {
    let patch = BsdiffRust::diff(b"", b"").unwrap();
    let generated = BsdiffRust::patch(b"", &patch).unwrap();
    assert_eq!(generated, b"");
}

#[test]
fn test_round_trip_identical_inputs() {
    let content = generate_test_data(4096);
    let patch = BsdiffRust::diff(&content, &content).unwrap();
    let generated = BsdiffRust::patch(&content, &patch).unwrap();
    assert_eq!(generated, content);
}

#[test]
fn test_round_trip_larger_data() {
    let old_content = generate_test_data(8_000);
    let mut new_content = old_content.clone();
    for i in (0..new_content.len()).step_by(97) {
        new_content[i] = new_content[i].wrapping_add(1);
    }
    let patch = BsdiffRust::diff(&old_content, &new_content).unwrap();
    let generated = BsdiffRust::patch(&old_content, &patch).unwrap();
    assert_eq!(generated, new_content);
}

#[test]
fn test_round_trip_level_bounds() {
    let old_content = b"a small input at the lowest and highest compression level";
    let new_content = b"a small output at the lowest and highest compression level, changed";
    for level in [1, 22] {
        let config = OptimizationConfig { compression_level: level, use_fast_temp_dir: false };
        let patch = BsdiffRust::diff_optimized(old_content, new_content, &config).unwrap();
        let generated = BsdiffRust::patch_optimized(old_content, &patch, &config).unwrap();
        assert_eq!(generated, new_content);
    }
}

#[test]
fn test_produce_is_deterministic() {
    let old_content = b"deterministic old bytes";
    let new_content = b"deterministic new bytes, somewhat longer";
    let config = OptimizationConfig { compression_level: 5, use_fast_temp_dir: true };
    let first = BsdiffRust::diff_optimized(old_content, new_content, &config).unwrap();
    let second = BsdiffRust::diff_optimized(old_content, new_content, &config).unwrap();
    assert_eq!(first, second);
}

#[test]
fn test_patch_rejects_uncompressed_garbage() {
    let result = BsdiffRust::patch(b"some old content", b"this is not a compressed patch");
    assert_eq!(result, Err(Error::CorruptPatch));
}

#[test]
fn test_patch_rejects_compressed_garbage() {
    let bogus_delta = zstd::stream::encode_all(&b"junk that is no delta stream"[..], 3).unwrap();
    let result = BsdiffRust::patch(b"some old content", &bogus_delta);
    assert_eq!(result, Err(Error::DeltaApplyError));
}

#[test]
fn test_verify_rejects_corrupt_patch() {
    let result = verify_patch(b"old", b"new", b"garbage bytes");
    assert_eq!(result, Err(Error::CorruptPatch));
}

#[test]
fn test_verify_against_wrong_old() {
    let old_content = b"the original input";
    let new_content = b"the updated input with more";
    let patch = BsdiffRust::diff(old_content, new_content).unwrap();
    // Applying against a different old either fails or yields different bytes;
    // verification must not report a match.
    assert_ne!(verify_patch(b"a different original", new_content, &patch), Ok(true));
}

#[test]
fn test_validate_files_decisions() {
    assert_eq!(BsdiffRust::validate_files(true, true), Ok(()));
    assert_eq!(BsdiffRust::validate_files(false, true), Err(Error::NotFound));
    assert_eq!(BsdiffRust::validate_files(true, false), Err(Error::NotFound));
    assert_eq!(BsdiffRust::validate_files(false, false), Err(Error::NotFound));
}

#[test]
fn test_validate_patch_files_decisions() {
    assert_eq!(BsdiffRust::validate_patch_files(true, true), Ok(()));
    assert_eq!(BsdiffRust::validate_patch_files(false, true), Err(Error::NotFound));
    assert_eq!(BsdiffRust::validate_patch_files(true, false), Err(Error::NotFound));
}
