//! The toolchain locator: GNU search-path scanning and the Microsoft
//! discovery tiers, driven event by event.

use windres::locate::{
    gnu_tool_name, locate_gnu, msvc_locate_start, msvc_tool_name, on_dev_shell, on_override,
    on_sdk10_folder, on_sdk10_version, on_sdk81_folder, on_search_scan, pick_first_existing,
    tool_candidates, Arch, MsvcLocate,
};
use windres::registry::Hive;
use windres::Error;

fn done_path(s: MsvcLocate) -> String {
    match s {
        MsvcLocate::Done { result } => result.unwrap(),
        other => panic!("not a successful final state: {other:?}"),
    }
}

#[test]
fn tool_names_are_fixed() {
    assert_eq!(gnu_tool_name(), "windres.exe");
    assert_eq!(msvc_tool_name(), "rc.exe");
}

#[test]
fn candidates_join_every_directory_in_order() {
    let dirs = vec!["C:\\a".to_string(), "C:\\b\\".to_string()];
    let cands = tool_candidates(&dirs, "windres.exe");
    assert_eq!(
        cands,
        vec!["C:\\a\\windres.exe".to_string(), "C:\\b\\windres.exe".to_string()]
    );
}

#[test]
fn gnu_takes_the_first_existing_candidate() {
    let dirs = vec!["C:\\a".to_string(), "C:\\b".to_string(), "C:\\c".to_string()];
    let cands = tool_candidates(&dirs, "windres.exe");
    let r = locate_gnu(&cands, &vec![false, true, true]);
    assert_eq!(r.unwrap(), "C:\\b\\windres.exe");
}

#[test]
fn gnu_fails_when_no_candidate_exists() {
    let dirs = vec!["C:\\a".to_string(), "C:\\b".to_string()];
    let cands = tool_candidates(&dirs, "windres.exe");
    assert_eq!(locate_gnu(&cands, &vec![false, false]).unwrap_err(), Error::ToolNotFound);
}

#[test]
fn gnu_fails_on_empty_search_path() {
    assert_eq!(locate_gnu(&vec![], &vec![]).unwrap_err(), Error::ToolNotFound);
}

#[test]
fn pick_first_existing_reports_none_without_hits() {
    let cands = vec!["x".to_string()];
    assert_eq!(pick_first_existing(&cands, &vec![false]), None);
}

#[test]
fn discovery_starts_with_the_dev_shell_marker() {
    assert!(matches!(msvc_locate_start(), MsvcLocate::CheckDevShell));
}

#[test]
fn dev_shell_marker_routes_to_search_path_scan() {
    assert!(matches!(on_dev_shell(true), MsvcLocate::ScanSearchPath));
    assert!(matches!(on_dev_shell(false), MsvcLocate::CheckOverride));
}

#[test]
fn successful_scan_is_final() {
    let s = on_search_scan(Some("C:\\tools\\rc.exe".to_string()));
    assert_eq!(done_path(s), "C:\\tools\\rc.exe");
}

#[test]
fn failed_scan_under_dev_shell_marker_skips_all_later_tiers() {
    match on_search_scan(None) {
        MsvcLocate::Done { result } => assert_eq!(result.unwrap_err(), Error::ToolNotFound),
        other => panic!("expected a final state: {other:?}"),
    }
}

#[test]
fn override_is_taken_unconditionally() {
    let s = on_override(Some("C:\\SDKbin".to_string()), Arch::X64);
    assert_eq!(done_path(s), "C:\\SDKbin\\x64\\rc.exe");
}

#[test]
fn override_suffix_follows_the_target_architecture() {
    for (arch, path) in [
        (Arch::X86, "C:\\S\\x86\\rc.exe"),
        (Arch::X64, "C:\\S\\x64\\rc.exe"),
        (Arch::Arm, "C:\\S\\arm\\rc.exe"),
        (Arch::Arm64, "C:\\S\\arm64\\rc.exe"),
    ] {
        let s = on_override(Some("C:\\S".to_string()), arch);
        assert_eq!(done_path(s), path);
    }
}

#[test]
fn absent_override_starts_registry_discovery_at_machine_hive() {
    assert!(matches!(
        on_override(None, Arch::X64),
        MsvcLocate::ReadSdk10Folder { hive: Hive::Machine }
    ));
}

#[test]
fn sdk10_lookup_builds_versioned_path_with_zero_suffix() {
    let s = on_sdk10_folder(Hive::Machine, Ok("C:\\SDK".to_string()));
    match s {
        MsvcLocate::ReadSdk10Version { hive, folder } => {
            assert_eq!(hive, Hive::Machine);
            assert_eq!(folder, "C:\\SDK");
            let done = on_sdk10_version(hive, folder, Ok("10.0.19041".to_string()), Arch::X64);
            assert_eq!(done_path(done), "C:\\SDK\\bin\\10.0.19041.0\\x64\\rc.exe");
        },
        other => panic!("expected a version read: {other:?}"),
    }
}

#[test]
fn machine_hive_failure_retries_user_hive_for_same_value() {
    let s = on_sdk10_folder(Hive::Machine, Err(Error::RegistryLookupFailed(2)));
    assert!(matches!(s, MsvcLocate::ReadSdk10Folder { hive: Hive::User }));
    let s = on_sdk10_version(
        Hive::Machine,
        "C:\\SDK".to_string(),
        Err(Error::RegistryLookupFailed(2)),
        Arch::X64,
    );
    match s {
        MsvcLocate::ReadSdk10Version { hive, folder } => {
            assert_eq!(hive, Hive::User);
            assert_eq!(folder, "C:\\SDK");
        },
        other => panic!("expected a user-hive version read: {other:?}"),
    }
}

#[test]
fn user_hive_failure_falls_back_to_eight_one() {
    let s = on_sdk10_folder(Hive::User, Err(Error::RegistryLookupFailed(2)));
    assert!(matches!(s, MsvcLocate::ReadSdk81Folder { hive: Hive::Machine }));
    let s = on_sdk10_version(
        Hive::User,
        "C:\\SDK".to_string(),
        Err(Error::RegistryLookupFailed(2)),
        Arch::X64,
    );
    assert!(matches!(s, MsvcLocate::ReadSdk81Folder { hive: Hive::Machine }));
}

#[test]
fn eight_one_path_has_no_version_segment() {
    let s = on_sdk81_folder(Hive::Machine, Ok("C:\\K81".to_string()), Arch::X64);
    assert_eq!(done_path(s), "C:\\K81\\bin\\x64\\rc.exe");
}

#[test]
fn eight_one_machine_failure_retries_user_hive() {
    let s = on_sdk81_folder(Hive::Machine, Err(Error::RegistryLookupFailed(5)), Arch::X64);
    assert!(matches!(s, MsvcLocate::ReadSdk81Folder { hive: Hive::User }));
}

#[test]
fn exhausted_discovery_folds_into_tool_not_found() {
    let s = on_sdk81_folder(Hive::User, Err(Error::RegistryLookupFailed(5)), Arch::X64);
    match s {
        MsvcLocate::Done { result } => assert_eq!(result.unwrap_err(), Error::ToolNotFound),
        other => panic!("expected a final state: {other:?}"),
    }
}
