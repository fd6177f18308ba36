#![allow(unused_imports)]
use vstd::prelude::*;

pub mod cli;
pub mod mlp;
pub mod strings;
pub mod tables;

verus! {

/// Path of the marker file in which each generated run block records the
/// framework version it is about to build.
pub open spec fn version_file_spec() -> Seq<char> {
    "target/tmp/version_burn"@
}

/// Returns the path of the version-marker file.
pub fn version_file() -> (r: String)
    ensures
        r@ == version_file_spec(),
{
    String::from_str("target/tmp/version_burn")
}

/// The short display name of a backend, as it appears in benchmark
/// identifiers.
pub open spec fn flags_spec(b: cli::Backend) -> Seq<char> {
    match b {
        cli::Backend::Ndarray => "ndarray"@,
        cli::Backend::NdarrayNetlib => "ndarray-netlib"@,
        cli::Backend::NdarrayOpenblas => "ndarray-openblas"@,
        cli::Backend::NdarrayNoStd => "ndarray-no-std"@,
        cli::Backend::TchCpu => "tch-cpu"@,
        cli::Backend::TchGpu => "tch-gpu"@,
        cli::Backend::Wgpu => "wgpu"@,
    }
}

/// Returns the short display name of the backend.
pub fn flags(backend: &cli::Backend) -> (r: String)
    ensures
        r@ == flags_spec(*backend),
{
    match backend {
        cli::Backend::Ndarray => String::from_str("ndarray"),
        cli::Backend::NdarrayNetlib => String::from_str("ndarray-netlib"),
        cli::Backend::NdarrayOpenblas => String::from_str("ndarray-openblas"),
        cli::Backend::NdarrayNoStd => String::from_str("ndarray-no-std"),
        cli::Backend::TchCpu => String::from_str("tch-cpu"),
        cli::Backend::TchGpu => String::from_str("tch-gpu"),
        cli::Backend::Wgpu => String::from_str("wgpu"),
    }
}

/// The identifier a benchmark reports under: the backend's display name and
/// the framework version under test, joined by `:`.
pub open spec fn bench_id_spec(b: cli::Backend, version: Seq<char>) -> Seq<char> {
    flags_spec(b) + ":"@ + version
}

/// Returns the identifier a benchmark reports under. `version` is the
/// (already trimmed) content of the version-marker file.
pub fn bench_id(backend: &cli::Backend, version: &str) -> (r: String)
    ensures
        r@ == bench_id_spec(*backend, version@),
{
    let mut r = flags(backend);
    r.append(":");
    r.append(version);
    r
}

} // verus!
