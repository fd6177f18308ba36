use burn_benches::mlp::{configs, MlpBenchSuite, MlpConfig};
use burn_benches::tables::{system_info_text, tables_content, GpuInfo, SuiteEntry, SystemInfo};

#[test]
fn mlp_configs_are_the_fixed_four() {
    let cfgs = configs();
    assert_eq!(cfgs.len(), 4);
    assert_eq!(cfgs[0], MlpConfig::new(1, 4, 128));
    assert_eq!(cfgs[1], MlpConfig::new(16, 4, 256));
    assert_eq!(cfgs[2], MlpConfig::new(32, 4, 512));
    assert_eq!(cfgs[3], MlpConfig::new(64, 4, 1024));
}

#[test]
fn mlp_config_display_names_every_parameter() {
    let c = MlpConfig::new(16, 4, 256);
    assert_eq!(
        c.display(),
        "MlpConfig { batch_size: 16, num_layers: 4, d_model: 256 }"
    );
}

#[test]
fn mlp_suite_name_and_details() {
    assert_eq!(MlpBenchSuite::name(), "mlp");
    let expected = "Multi layer perceptron (MLP) benchmarks.\n\n\
        - 1 => `MlpConfig { batch_size: 1, num_layers: 4, d_model: 128 }`\n\
        - 2 => `MlpConfig { batch_size: 16, num_layers: 4, d_model: 256 }`\n\
        - 3 => `MlpConfig { batch_size: 32, num_layers: 4, d_model: 512 }`\n\
        - 4 => `MlpConfig { batch_size: 64, num_layers: 4, d_model: 1024 }`\n";
    assert_eq!(MlpBenchSuite::details(), expected);
}

fn host() -> SystemInfo {
    SystemInfo {
        name: Some("debian".to_string()),
        os_version: Some("12".to_string()),
        kernel_version: Some("6.1.0".to_string()),
        cpu_brand: "Vendor".to_string(),
        cpu_name: "cpu0".to_string(),
        gpus: vec![],
    }
}

#[test]
fn system_info_lists_known_facts() {
    let text = system_info_text(&host());
    assert_eq!(
        text,
        "\n## System\n\n- Name: debian\n- OS version: 12\n\
         - Kernel Version: 6.1.0\n- CPU: Vendor cpu0\n"
    );
}

#[test]
fn system_info_omits_absent_facts() {
    let mut info = host();
    info.name = None;
    info.kernel_version = None;
    let text = system_info_text(&info);
    assert_eq!(text, "\n## System\n\n- OS version: 12\n- CPU: Vendor cpu0\n");
}

#[test]
fn system_info_single_gpu_is_unnumbered() {
    let mut info = host();
    info.gpus = vec![GpuInfo {
        brand: "GeForce".to_string(),
        name: "RTX".to_string(),
    }];
    let text = system_info_text(&info);
    assert!(text.ends_with("- CPU: Vendor cpu0\n- GPU: GeForce RTX"));
}

#[test]
fn system_info_several_gpus_are_numbered_from_zero() {
    let mut info = host();
    info.gpus = vec![
        GpuInfo {
            brand: "GeForce".to_string(),
            name: "A".to_string(),
        },
        GpuInfo {
            brand: "GeForce".to_string(),
            name: "B".to_string(),
        },
    ];
    let text = system_info_text(&info);
    assert!(text.ends_with("- GPU(0): GeForce A- GPU(1): GeForce B"));
}

#[test]
fn tables_document_holds_overview_then_suite_sections() {
    let suites = vec![SuiteEntry {
        name: "mlp".to_string(),
        details: "Multi layer perceptron (MLP) benchmarks.\n".to_string(),
    }];
    let text = tables_content(&host(), &suites);
    let expected = "[top_comments]\n\
        Overview = \"\"\"\n\
        Burn micro benchmarks\n\
        \n## System\n\n\
        - Name: debian\n\
        - OS version: 12\n\
        - Kernel Version: 6.1.0\n\
        - CPU: Vendor cpu0\n\
        \n\"\"\"\n\
        [table_comments]\n\
        mlp = \"\"\"\n\
        Multi layer perceptron (MLP) benchmarks.\n\
        \n\"\"\"\n";
    assert_eq!(text, expected);
}
