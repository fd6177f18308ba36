use burn_benches::cli::{
    bash_script_content, build_bash_git, build_bash_path, Backend, Bench, BenchesArgs,
};

const REPO: &str = "https://github.com/burn-rs/burn/";

fn args_one_tag() -> BenchesArgs {
    BenchesArgs {
        backends: vec![Backend::Ndarray],
        tags: vec!["v0.5.0".to_string()],
        commits: vec![],
        branches: vec![],
        paths: vec![],
        bench: Bench::MLP,
        repository: REPO.to_string(),
    }
}

#[test]
fn git_block_for_single_tag_run() {
    // One reference-CPU backend and one tag: the block records the version,
    // repoints the framework crates at the tag, and runs only the MLP suite
    // under the ndarray feature, redirecting to the derived filename.
    let runs = args_one_tag().into_params();
    assert_eq!(runs.len(), 1);
    let block = build_bash_git(runs[0].settings(), REPO);
    let expected = "echo v0.5.0 > target/tmp/version_burn\n\
        cargo add burn --git https://github.com/burn-rs/burn/ --tag v0.5.0\n\
        cargo add burn-wgpu --git https://github.com/burn-rs/burn/ --tag v0.5.0\n\
        cargo add burn-tch --git https://github.com/burn-rs/burn/ --tag v0.5.0\n\
        cargo add burn-ndarray --git https://github.com/burn-rs/burn/ --tag v0.5.0\n\
        cargo add burn-autodiff --git https://github.com/burn-rs/burn/ --tag v0.5.0\n\
        cargo criterion --no-default-features --features ndarray --bench mlp \
        --message-format=json > target/burn_benches/ndarray-tag-v0.5.0.json\n";
    assert_eq!(block, expected);
}

#[test]
fn path_block_repoints_with_path_and_no_bench_restriction() {
    let a = BenchesArgs {
        backends: vec![Backend::Ndarray, Backend::TchGpu],
        tags: vec![],
        commits: vec![],
        branches: vec![],
        paths: vec!["/local/checkout".to_string()],
        bench: Bench::All,
        repository: REPO.to_string(),
    };
    let runs = a.into_params();
    assert_eq!(runs.len(), 2);
    let block = build_bash_path(runs[0].settings());
    let expected = "echo -local-checkout > target/tmp/version_burn\n\
        cargo add burn --path /local/checkout/burn \n\
        cargo add burn-wgpu --path /local/checkout/burn-wgpu\n\
        cargo add burn-tch --path /local/checkout/burn-tch\n\
        cargo add burn-ndarray --path /local/checkout/burn-ndarray\n\
        cargo add burn-autodiff --path /local/checkout/burn-autodiff\n\
        cargo criterion --no-default-features --features ndarray  \
        --message-format=json > target/burn_benches/ndarray-path--local-checkout.json\n";
    assert_eq!(block, expected);
    assert!(!block.contains("--git"));
    let second = build_bash_path(runs[1].settings());
    assert!(second.contains("--features tch-gpu"));
    assert!(!second.contains("--bench"));
}

#[test]
fn script_without_converter_ends_at_aggregation() {
    let runs = args_one_tag().into_params();
    let script = bash_script_content(&runs, REPO, false);
    assert!(script.ends_with(
        "cat target/burn_benches/ndarray-tag-v0.5.0.json \
         | criterion-table >  target/burn_benches/BENCHMARKS.md"
    ));
    assert!(!script.contains("pandoc"));
}

#[test]
fn script_with_converter_appends_conversion_once_after_aggregation() {
    let runs = args_one_tag().into_params();
    let without = bash_script_content(&runs, REPO, false);
    let with = bash_script_content(&runs, REPO, true);
    let conversion = "\npandoc -f markdown target/burn_benches/BENCHMARKS.md \
        > target/burn_benches/benchmarks.html";
    let mut expected = without.clone();
    expected.push_str(conversion);
    assert_eq!(with, expected);
    assert_eq!(with.matches("pandoc").count(), 1);
}

#[test]
fn script_aggregates_every_result_file_in_order() {
    let a = BenchesArgs {
        backends: vec![Backend::Wgpu],
        tags: vec!["v1".to_string(), "v2".to_string()],
        commits: vec![],
        branches: vec![],
        paths: vec![],
        bench: Bench::All,
        repository: REPO.to_string(),
    };
    let runs = a.into_params();
    let script = bash_script_content(&runs, REPO, false);
    assert!(script.contains(
        "cat target/burn_benches/wgpu-tag-v1.json target/burn_benches/wgpu-tag-v2.json \
         | criterion-table >  target/burn_benches/BENCHMARKS.md"
    ));
}
