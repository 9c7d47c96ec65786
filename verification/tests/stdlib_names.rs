use pluto_build::environment::Environment;
use pluto_build::stdlib::{default_stdlib, get_cpp_link_stdlib, stdlib_override};

fn env(vars: &[(&str, &str)]) -> Environment {
    Environment::from_vars(
        vars.iter()
            .map(|(name, value)| (name.to_string(), value.to_string()))
            .collect(),
    )
}

fn resolve(target: &str, host: &str, vars: &[(&str, &str)]) -> Option<String> {
    get_cpp_link_stdlib(target, host, &env(vars))
}

#[test]
fn apple_links_libcxx() {
    let target = "x86_64-apple-darwin";
    assert_eq!(resolve(target, target, &[]), Some("c++".to_string()));
    assert_eq!(
        resolve("aarch64-apple-ios", "x86_64-apple-darwin", &[]),
        Some("c++".to_string())
    );
}

#[test]
fn linux_links_libstdcxx() {
    let target = "x86_64-unknown-linux-gnu";
    assert_eq!(resolve(target, target, &[]), Some("stdc++".to_string()));
    assert_eq!(
        resolve("riscv64gc-unknown-linux-gnu", target, &[]),
        Some("stdc++".to_string())
    );
}

#[test]
fn android_links_shared_libcxx() {
    assert_eq!(
        resolve("aarch64-linux-android", "x86_64-unknown-linux-gnu", &[]),
        Some("c++_shared".to_string())
    );
}

#[test]
fn msvc_links_nothing_by_name() {
    let target = "x86_64-pc-windows-msvc";
    assert_eq!(resolve(target, target, &[]), None);
    assert_eq!(resolve("aarch64-pc-windows-msvc", target, &[]), None);
}

#[test]
fn windows_gnu_links_libstdcxx() {
    let target = "x86_64-pc-windows-gnu";
    assert_eq!(resolve(target, target, &[]), Some("stdc++".to_string()));
}

#[test]
fn bsds_link_libcxx() {
    assert_eq!(default_stdlib("x86_64-unknown-freebsd"), Some("c++".to_string()));
    assert_eq!(default_stdlib("x86_64-unknown-openbsd"), Some("c++".to_string()));
    assert_eq!(default_stdlib("x86_64-unknown-netbsd"), Some("stdc++".to_string()));
}

#[test]
fn msvc_is_tested_before_the_other_families() {
    assert_eq!(default_stdlib("apple-msvc-android"), None);
    assert_eq!(default_stdlib("android-apple"), Some("c++".to_string()));
}

#[test]
fn family_names_match_anywhere_in_the_triple() {
    assert_eq!(default_stdlib("android"), Some("c++_shared".to_string()));
    assert_eq!(default_stdlib("xxandroidxx"), Some("c++_shared".to_string()));
    assert_eq!(default_stdlib("androi"), Some("stdc++".to_string()));
    assert_eq!(default_stdlib(""), Some("stdc++".to_string()));
}

#[test]
fn exact_override_beats_every_default() {
    for target in [
        "x86_64-pc-windows-msvc",
        "x86_64-apple-darwin",
        "aarch64-linux-android",
        "x86_64-unknown-linux-gnu",
    ] {
        let key = format!("CXXSTDLIB_{target}");
        assert_eq!(
            resolve(target, target, &[(key.as_str(), "mine")]),
            Some("mine".to_string())
        );
    }
}

#[test]
fn exact_override_beats_the_other_overrides() {
    let target = "x86_64-unknown-linux-gnu";
    let vars = [
        ("CXXSTDLIB", "generic"),
        ("HOST_CXXSTDLIB", "host"),
        ("CXXSTDLIB_x86_64_unknown_linux_gnu", "underscored"),
        ("CXXSTDLIB_x86_64-unknown-linux-gnu", "exact"),
    ];
    assert_eq!(resolve(target, target, &vars), Some("exact".to_string()));
}

#[test]
fn underscored_override_is_second() {
    let target = "x86_64-unknown-linux-gnu";
    let vars = [
        ("CXXSTDLIB", "generic"),
        ("HOST_CXXSTDLIB", "host"),
        ("CXXSTDLIB_x86_64_unknown_linux_gnu", "underscored"),
    ];
    assert_eq!(resolve(target, target, &vars), Some("underscored".to_string()));
}

#[test]
fn host_override_applies_to_host_builds_only() {
    let target = "x86_64-unknown-linux-gnu";
    let vars = [("CXXSTDLIB", "generic"), ("HOST_CXXSTDLIB", "host")];
    assert_eq!(resolve(target, target, &vars), Some("host".to_string()));
    assert_eq!(
        resolve("aarch64-linux-android", target, &vars),
        Some("generic".to_string())
    );
}

#[test]
fn target_override_applies_to_cross_builds_only() {
    let host = "x86_64-unknown-linux-gnu";
    let vars = [("TARGET_CXXSTDLIB", "cross")];
    assert_eq!(
        resolve("aarch64-linux-android", host, &vars),
        Some("cross".to_string())
    );
    assert_eq!(resolve(host, host, &vars), Some("stdc++".to_string()));
}

#[test]
fn generic_override_is_last() {
    let target = "x86_64-pc-windows-msvc";
    assert_eq!(
        resolve(target, target, &[("CXXSTDLIB", "generic")]),
        Some("generic".to_string())
    );
}

#[test]
fn empty_override_is_an_override() {
    let target = "x86_64-unknown-linux-gnu";
    assert_eq!(resolve(target, target, &[("CXXSTDLIB", "")]), Some(String::new()));
}

#[test]
fn override_of_another_target_is_ignored() {
    let target = "x86_64-unknown-linux-gnu";
    let vars = [("CXXSTDLIB_aarch64-linux-android", "other")];
    assert_eq!(stdlib_override(target, target, &env(&vars)), None);
    assert_eq!(resolve(target, target, &vars), Some("stdc++".to_string()));
}

#[test]
fn override_without_any_variable_is_none() {
    assert_eq!(stdlib_override("a-b", "a-b", &env(&[])), None);
}
