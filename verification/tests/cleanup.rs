use burn_benches::cli::{cleanup, cleanup_files, ArtifactState, Backend, Bench, BenchesArgs};

fn state(results: Vec<bool>) -> ArtifactState {
    ArtifactState {
        manifest_original: false,
        backup_present: true,
        results_present: results,
        script_present: true,
        tables_present: true,
    }
}

#[test]
fn cleanup_restores_manifest_and_removes_artifacts() {
    let mut s = state(vec![true, false, true]);
    cleanup(&mut s);
    assert!(s.manifest_original);
    assert!(!s.backup_present);
    assert_eq!(s.results_present, vec![false, false, false]);
    assert!(!s.script_present);
    assert!(!s.tables_present);
}

#[test]
fn cleanup_twice_equals_cleanup_once() {
    // The normal path and the interrupt path may both run the teardown; the
    // second run must change nothing.
    let mut once = state(vec![true, true]);
    cleanup(&mut once);
    let mut twice = state(vec![true, true]);
    cleanup(&mut twice);
    cleanup(&mut twice);
    assert_eq!(once.manifest_original, twice.manifest_original);
    assert_eq!(once.backup_present, twice.backup_present);
    assert_eq!(once.results_present, twice.results_present);
    assert_eq!(once.script_present, twice.script_present);
    assert_eq!(once.tables_present, twice.tables_present);
}

#[test]
fn cleanup_without_backup_leaves_manifest_state_alone() {
    let mut s = ArtifactState {
        manifest_original: true,
        backup_present: false,
        results_present: vec![true],
        script_present: false,
        tables_present: false,
    };
    cleanup(&mut s);
    assert!(s.manifest_original);
    assert!(!s.backup_present);
    assert_eq!(s.results_present, vec![false]);
}

#[test]
fn cleanup_files_lists_results_then_script_then_tables() {
    let a = BenchesArgs {
        backends: vec![Backend::TchCpu],
        tags: vec!["v1".to_string()],
        commits: vec![],
        branches: vec![],
        paths: vec!["/opt/x".to_string()],
        bench: Bench::All,
        repository: "r".to_string(),
    };
    let runs = a.into_params();
    let files = cleanup_files(&runs);
    assert_eq!(
        files,
        vec![
            "target/burn_benches/tch-cpu-tag-v1.json".to_string(),
            "target/burn_benches/tch-cpu-path--opt-x.json".to_string(),
            "target/tmp/run_burn.sh".to_string(),
            "tables.toml".to_string(),
        ]
    );
}
