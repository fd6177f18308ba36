use burn_benches::cli::{Backend, BenchParam, BenchSettings, BenchesArgs, Bench};
use burn_benches::strings::{replace_slashes, trimmed, usize_to_string};
use burn_benches::{bench_id, flags, version_file};

#[test]
fn usize_to_string_renders_decimal() {
    assert_eq!(usize_to_string(0), "0");
    assert_eq!(usize_to_string(7), "7");
    assert_eq!(usize_to_string(10), "10");
    assert_eq!(usize_to_string(1234), "1234");
    assert_eq!(usize_to_string(1000000), "1000000");
}

#[test]
fn replace_slashes_replaces_every_slash() {
    assert_eq!(replace_slashes("a/b/c"), "a-b-c");
    assert_eq!(replace_slashes("no-slash"), "no-slash");
    assert_eq!(replace_slashes("/"), "-");
    assert_eq!(replace_slashes(""), "");
}

#[test]
fn trimmed_strips_leading_and_trailing_whitespace() {
    assert_eq!(trimmed(" \n\tv0.5.0\r\n"), "v0.5.0");
    assert_eq!(trimmed("plain"), "plain");
    assert_eq!(trimmed("  \n "), "");
    assert_eq!(trimmed("a b"), "a b");
}

#[test]
fn flags_names_every_backend() {
    assert_eq!(flags(&Backend::Ndarray), "ndarray");
    assert_eq!(flags(&Backend::NdarrayNetlib), "ndarray-netlib");
    assert_eq!(flags(&Backend::NdarrayOpenblas), "ndarray-openblas");
    assert_eq!(flags(&Backend::NdarrayNoStd), "ndarray-no-std");
    assert_eq!(flags(&Backend::TchCpu), "tch-cpu");
    assert_eq!(flags(&Backend::TchGpu), "tch-gpu");
    assert_eq!(flags(&Backend::Wgpu), "wgpu");
}

#[test]
fn bench_id_joins_flag_and_version() {
    assert_eq!(bench_id(&Backend::TchGpu, "v0.8.0"), "tch-gpu:v0.8.0");
    assert_eq!(bench_id(&Backend::Ndarray, "main"), "ndarray:main");
}

#[test]
fn version_file_is_the_marker_path() {
    assert_eq!(version_file(), "target/tmp/version_burn");
}

#[test]
fn bench_filename_sanitizes_and_is_stable() {
    let a = BenchesArgs {
        backends: vec![Backend::Ndarray],
        tags: vec![],
        commits: vec![],
        branches: vec!["feat/fast".to_string()],
        paths: vec![],
        bench: Bench::All,
        repository: "r".to_string(),
    };
    let runs = a.into_params();
    let settings = runs[0].settings();
    let first = settings.bench_filename();
    assert_eq!(first, "target/burn_benches/ndarray-branch-feat-fast.json");
    // Same triple, same filename on a repeated derivation.
    assert_eq!(settings.bench_filename(), first);
}

#[test]
fn bench_filenames_unique_across_a_matrix() {
    let a = BenchesArgs {
        backends: vec![Backend::Ndarray, Backend::NdarrayNetlib, Backend::Wgpu],
        tags: vec!["v1".to_string(), "v2".to_string()],
        commits: vec!["v1".to_string()],
        branches: vec![],
        paths: vec!["v1".to_string()],
        bench: Bench::All,
        repository: "r".to_string(),
    };
    let runs = a.into_params();
    let names: Vec<String> = runs
        .iter()
        .map(|r: &BenchParam| r.settings().bench_filename())
        .collect();
    for (i, a) in names.iter().enumerate() {
        for (j, b) in names.iter().enumerate() {
            if i != j {
                assert_ne!(a, b);
            }
        }
    }
}

#[test]
fn bench_filename_from_raw_settings() {
    let s = BenchSettings {
        identifier: "rev".to_string(),
        value: "abc123".to_string(),
        backend_flag: "tch-gpu".to_string(),
        bench: "".to_string(),
    };
    assert_eq!(s.bench_filename(), "target/burn_benches/tch-gpu-rev-abc123.json");
}
