use pluto_build::builder::{Build, Profile};
use pluto_build::compiler::configure;
use pluto_build::environment::Environment;
use pluto_build::toolchain::ToolchainConfig;
use std::path::Path;

fn shown(config: &ToolchainConfig) -> String {
    format!("{:?}", configure(config))
}

fn files_of(config: &ToolchainConfig) -> Vec<String> {
    configure(config)
        .get_files()
        .map(|file| file.to_string_lossy().into_owned())
        .collect()
}

#[test]
fn a_blank_configuration_is_a_blank_builder() {
    assert_eq!(shown(&ToolchainConfig::new()), format!("{:?}", cc::Build::new()));
}

#[test]
fn the_target_reaches_the_builder() {
    let mut config = ToolchainConfig::new();
    config.target = Some("aarch64-linux-android".to_string());
    let text = shown(&config);
    assert!(text.contains("target: Some(\"aarch64-linux-android\")"), "{text}");
    assert!(text.contains("host: None"), "{text}");
}

#[test]
fn the_host_reaches_the_builder() {
    let mut config = ToolchainConfig::new();
    config.host = Some("x86_64-unknown-linux-gnu".to_string());
    let text = shown(&config);
    assert!(text.contains("host: Some(\"x86_64-unknown-linux-gnu\")"), "{text}");
    assert!(text.contains("target: None"), "{text}");
}

#[test]
fn the_warnings_switch_reaches_the_builder() {
    let mut config = ToolchainConfig::new();
    assert!(shown(&config).contains(" warnings: None"));
    config.warnings = Some(false);
    assert!(shown(&config).contains(" warnings: Some(false)"));
    config.warnings = Some(true);
    assert!(shown(&config).contains(" warnings: Some(true)"));
}

#[test]
fn the_metadata_switch_reaches_the_builder() {
    let mut config = ToolchainConfig::new();
    assert!(shown(&config).contains("metadata: true"));
    config.cargo_metadata = false;
    let text = shown(&config);
    assert!(text.contains("metadata: false"), "{text}");
    assert!(!text.contains("metadata: true"), "{text}");
}

#[test]
fn the_standard_reaches_the_builder() {
    let mut config = ToolchainConfig::new();
    assert!(shown(&config).contains(" std: None"));
    config.std = Some("c++17".to_string());
    assert!(shown(&config).contains(" std: Some(\"c++17\")"));
}

#[test]
fn the_cxx_switch_reaches_the_builder() {
    let mut config = ToolchainConfig::new();
    assert!(shown(&config).contains(" cpp: false"));
    config.cpp = true;
    assert!(shown(&config).contains(" cpp: true"));
}

#[test]
fn the_optimization_level_reaches_the_builder() {
    let mut config = ToolchainConfig::new();
    assert!(shown(&config).contains(" opt_level: None"));
    config.opt_level = Some(2);
    assert!(shown(&config).contains(" opt_level: Some(\"2\")"));
}

#[test]
fn the_output_directory_reaches_the_builder() {
    let mut config = ToolchainConfig::new();
    assert!(shown(&config).contains(" out_dir: None"));
    config.out_dir = Some("/tmp/out".to_string());
    assert!(shown(&config).contains(" out_dir: Some(\"/tmp/out\")"));
}

#[test]
fn definitions_reach_the_builder_in_order() {
    let mut config = ToolchainConfig::new();
    assert!(shown(&config).contains(" definitions: []"));
    config.define("LUAI_MAXSTACK", Some("1000"));
    config.define("NDEBUG", None);
    let text = shown(&config);
    assert!(
        text.contains(" definitions: [(\"LUAI_MAXSTACK\", Some(\"1000\")), (\"NDEBUG\", None)]"),
        "{text}"
    );
}

#[test]
fn flags_reach_the_builder_as_best_effort_flags() {
    let mut config = ToolchainConfig::new();
    assert!(shown(&config).contains(" flags: []"));
    config.flag_if_supported("-fno-rtti");
    config.flag_if_supported("-maes");
    let text = shown(&config);
    assert!(
        text.contains(" flags: [IfSupported(\"-fno-rtti\"), IfSupported(\"-maes\")]"),
        "{text}"
    );
}

#[test]
fn files_reach_the_builder_in_order() {
    let mut config = ToolchainConfig::new();
    assert!(files_of(&config).is_empty());
    config.add_files_by_ext(
        "src",
        &vec!["b.cpp".to_string(), "skip.h".to_string(), "a.cpp".to_string()],
        "cpp",
    );
    let expected: Vec<String> = ["b.cpp", "a.cpp"]
        .iter()
        .map(|name| Path::new("src").join(name).to_string_lossy().into_owned())
        .collect();
    assert_eq!(files_of(&config), expected);
}

#[test]
fn a_planned_unit_reaches_the_builder_whole() {
    let mut build = Build::new(Environment::from_vars(Vec::new()));
    build
        .target("x86_64-unknown-linux-gnu")
        .host("x86_64-unknown-linux-gnu")
        .out_dir("/tmp/out")
        .set_max_stack_size(5000)
        .use_longjmp(true);
    let plan = match build.try_build(Profile::Release, "/crate") {
        Ok(plan) => plan,
        Err(missing) => panic!("{}", missing.message()),
    };
    let text = shown(&plan.units[0].config);
    for piece in [
        "target: Some(\"x86_64-unknown-linux-gnu\")",
        "host: Some(\"x86_64-unknown-linux-gnu\")",
        " warnings: Some(false)",
        "metadata: false",
        " std: Some(\"c++17\")",
        " cpp: true",
        " opt_level: Some(\"2\")",
        " out_dir: Some(\"/tmp/out\")",
        " definitions: [(\"LUAI_MAXSTACK\", Some(\"5000\")), (\"LUA_USE_LONGJMP\", Some(\"1\")), (\"NDEBUG\", None), (\"SOUP_USE_INTRIN\", None)]",
        " flags: [IfSupported(\"-fvisibility=hidden\"), IfSupported(\"-fno-rtti\"), IfSupported(\"-Wno-multichar\"), IfSupported(\"-fno-math-errno\"), IfSupported(\"-maes\"), IfSupported(\"-mpclmul\"), IfSupported(\"-mrdrnd\"), IfSupported(\"-mrdseed\"), IfSupported(\"-msha\"), IfSupported(\"-msse4.1\")]",
    ] {
        assert!(text.contains(piece), "{piece} is not in {text}");
    }
}
