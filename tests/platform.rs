use gnu_provision::probe::{
    detect, first_present, host_facts, is_msvc, platform_supported, ComponentKind, Observation,
    Presence,
};

#[test]
fn test_windows_check() {
    if platform_supported("windows") {
        assert!(true);
    } else {
        println!("Skipping Windows-specific test on non-Windows platform");
        panic!("windows must be the supported platform");
    }
}

#[test]
fn other_platforms_are_refused() {
    assert!(!platform_supported("linux"));
    assert!(!platform_supported("macos"));
    assert!(!platform_supported("Windows"));
    assert!(!platform_supported(""));
}

#[test]
fn package_env_found_by_any_candidate_path() {
    let obs = Observation { paths_present: vec![false, true], command_ok: false };
    assert_eq!(detect(ComponentKind::PackageEnv, &obs), Presence::Present);
    assert_eq!(first_present(&obs.paths_present), Some(1));
    let none = Observation { paths_present: vec![false, false], command_ok: true };
    assert_eq!(detect(ComponentKind::PackageEnv, &none), Presence::Absent);
    assert_eq!(first_present(&none.paths_present), None);
    assert_eq!(first_present(&vec![true, true]), Some(0));
    assert_eq!(first_present(&vec![]), None);
}

#[test]
fn compiler_found_by_version_query() {
    let ran = Observation { paths_present: vec![], command_ok: true };
    let failed = Observation { paths_present: vec![true], command_ok: false };
    assert_eq!(detect(ComponentKind::Compiler, &ran), Presence::Present);
    assert_eq!(detect(ComponentKind::Compiler, &failed), Presence::Absent);
    assert_eq!(detect(ComponentKind::Toolchain, &ran), Presence::Present);
    assert_eq!(detect(ComponentKind::Toolchain, &failed), Presence::Absent);
}

#[test]
fn detecting_twice_agrees() {
    let obs = Observation { paths_present: vec![false, true], command_ok: false };
    for kind in [ComponentKind::PackageEnv, ComponentKind::Compiler, ComponentKind::Toolchain] {
        let first = detect(kind, &obs);
        let second = detect(kind, &obs);
        assert_eq!(first, second);
    }
}

#[test]
fn msvc_version_is_recognised() {
    assert!(is_msvc(b"rustc 1.75.0 (82e1608df 2023-12-21) x86_64-pc-windows-msvc"));
    assert!(!is_msvc(b"rustc 1.75.0 x86_64-pc-windows-gnu"));
}

#[test]
fn host_facts_follow_probes() {
    let f = host_facts(Presence::Present, Presence::Absent, Presence::Present, false);
    assert!(f.package_env_present);
    assert!(!f.compiler_present);
    assert!(f.toolchain_present);
    assert!(!f.config_current);
}
