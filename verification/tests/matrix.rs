use burn_benches::cli::{Backend, Bench, BenchParam, BenchesArgs};

fn args(
    backends: Vec<Backend>,
    tags: Vec<&str>,
    commits: Vec<&str>,
    branches: Vec<&str>,
    paths: Vec<&str>,
    bench: Bench,
) -> BenchesArgs {
    BenchesArgs {
        backends,
        tags: tags.into_iter().map(|s| s.to_string()).collect(),
        commits: commits.into_iter().map(|s| s.to_string()).collect(),
        branches: branches.into_iter().map(|s| s.to_string()).collect(),
        paths: paths.into_iter().map(|s| s.to_string()).collect(),
        bench,
        repository: "https://github.com/burn-rs/burn/".to_string(),
    }
}

#[test]
fn matrix_count_is_backends_times_selectors() {
    let a = args(
        vec![Backend::Ndarray, Backend::Wgpu],
        vec!["v1", "v2"],
        vec!["deadbeef"],
        vec!["main"],
        vec!["/tmp/checkout"],
        Bench::All,
    );
    let runs = a.into_params();
    assert_eq!(runs.len(), 2 * (2 + 1 + 1 + 1));
}

#[test]
fn matrix_order_backends_outer_then_kind_then_user_order() {
    let a = args(
        vec![Backend::Ndarray, Backend::Wgpu],
        vec!["v1", "v2"],
        vec!["c1"],
        vec!["b1"],
        vec!["p1"],
        Bench::All,
    );
    let runs = a.into_params();
    let described: Vec<(String, String, String)> = runs
        .iter()
        .map(|r| {
            let s = r.settings();
            (
                s.backend_flag.clone(),
                s.identifier.clone(),
                s.value.clone(),
            )
        })
        .collect();
    let expected: Vec<(String, String, String)> = vec![
        ("ndarray", "tag", "v1"),
        ("ndarray", "tag", "v2"),
        ("ndarray", "rev", "c1"),
        ("ndarray", "branch", "b1"),
        ("ndarray", "path", "p1"),
        ("wgpu", "tag", "v1"),
        ("wgpu", "tag", "v2"),
        ("wgpu", "rev", "c1"),
        ("wgpu", "branch", "b1"),
        ("wgpu", "path", "p1"),
    ]
    .into_iter()
    .map(|(a, b, c)| (a.to_string(), b.to_string(), c.to_string()))
    .collect();
    assert_eq!(described, expected);
}

#[test]
fn matrix_empty_kind_produces_no_descriptor() {
    let a = args(vec![Backend::TchCpu], vec![], vec![], vec![], vec![], Bench::All);
    let runs = a.into_params();
    assert_eq!(runs.len(), 0);
}

#[test]
fn matrix_single_tag_single_backend() {
    // One backend and one tag give exactly one descriptor, carrying the
    // MLP restriction and the tag selector.
    let a = args(
        vec![Backend::Ndarray],
        vec!["v0.5.0"],
        vec![],
        vec![],
        vec![],
        Bench::MLP,
    );
    let runs = a.into_params();
    assert_eq!(runs.len(), 1);
    match &runs[0] {
        BenchParam::Git(s) => {
            assert_eq!(s.identifier, "tag");
            assert_eq!(s.value, "v0.5.0");
            assert_eq!(s.backend_flag, "ndarray");
            assert_eq!(s.bench, "--bench mlp");
        }
        BenchParam::Path(_) => panic!("expected a git-based descriptor"),
    }
}

#[test]
fn matrix_paths_give_path_descriptors_without_bench_restriction() {
    let a = args(
        vec![Backend::Ndarray, Backend::TchGpu],
        vec![],
        vec![],
        vec![],
        vec!["/local/checkout"],
        Bench::All,
    );
    let runs = a.into_params();
    assert_eq!(runs.len(), 2);
    for run in runs.iter() {
        match run {
            BenchParam::Path(s) => {
                assert_eq!(s.identifier, "path");
                assert_eq!(s.value, "/local/checkout");
                assert_eq!(s.bench, "");
            }
            BenchParam::Git(_) => panic!("expected a path-based descriptor"),
        }
    }
    assert_eq!(runs[0].settings().backend_flag, "ndarray");
    assert_eq!(runs[1].settings().backend_flag, "tch-gpu");
}

#[test]
fn settings_returns_inner_settings_for_both_kinds() {
    let a = args(
        vec![Backend::NdarrayNetlib],
        vec!["t"],
        vec![],
        vec![],
        vec!["p"],
        Bench::Conv2d,
    );
    let runs = a.into_params();
    assert_eq!(runs.len(), 2);
    assert_eq!(runs[0].settings().identifier, "tag");
    assert_eq!(runs[0].settings().bench, "--bench conv2d");
    assert_eq!(runs[1].settings().identifier, "path");
    assert_eq!(runs[1].settings().backend_flag, "ndarray-blas-netlib");
}
