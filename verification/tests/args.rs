//! The invocation builder: exact argument vectors for both variants, and
//! the fatal configuration errors.

use windres::args::build_invocation;
use windres::{Build, Error, Variant};

fn sample_build() -> Build {
    let mut b = Build::new();
    b.add_inc_dir("C:\\inc");
    b.define("FOO", Some("1"));
    b.define("BAR", None);
    b.undefine("BAZ");
    b
}

#[test]
fn gnu_argument_vector() {
    let b = sample_build();
    let inv = build_invocation(&b, Variant::Gnu, "windres.exe", "app.rc", Some("C:\\out"))
        .unwrap();
    assert_eq!(inv.program, "windres.exe");
    assert_eq!(
        inv.args,
        vec![
            "-IC:\\inc".to_string(),
            "-DFOO=1".to_string(),
            "-DBAR".to_string(),
            "-UBAZ".to_string(),
            "-Ocoff".to_string(),
            "-v".to_string(),
            "-c65001".to_string(),
            "app.rc".to_string(),
            "C:\\out\\libapp.res.a".to_string(),
        ]
    );
}

#[test]
fn msvc_argument_vector() {
    let b = sample_build();
    let inv = build_invocation(&b, Variant::Msvc, "rc.exe", "app.rc", Some("C:\\out")).unwrap();
    assert_eq!(inv.program, "rc.exe");
    assert_eq!(
        inv.args,
        vec![
            "/iC:\\inc".to_string(),
            "/dFOO=1".to_string(),
            "/dBAR".to_string(),
            "/uBAZ".to_string(),
            "/foC:\\out\\app.res.lib".to_string(),
            "/v".to_string(),
            "/nologo".to_string(),
            "/c65001".to_string(),
            "app.rc".to_string(),
        ]
    );
}

#[test]
fn variants_share_no_flag_syntax() {
    let b = sample_build();
    let gnu = build_invocation(&b, Variant::Gnu, "t", "app.rc", Some("o")).unwrap();
    let msvc = build_invocation(&b, Variant::Msvc, "t", "app.rc", Some("o")).unwrap();
    for (g, m) in gnu.args.iter().zip(msvc.args.iter()).take(4) {
        assert_ne!(g, m);
        assert!(g.starts_with('-'));
        assert!(m.starts_with('/'));
    }
}

#[test]
fn define_without_value_has_no_equals_sign() {
    let mut b = Build::new();
    b.define("BARE", None);
    let inv = build_invocation(&b, Variant::Gnu, "t", "app.rc", Some("o")).unwrap();
    assert_eq!(inv.args[0], "-DBARE");
    assert!(!inv.args[0].contains('='));
}

#[test]
fn define_with_empty_value_keeps_equals_sign() {
    let mut b = Build::new();
    b.define("EMPTY", Some(""));
    let gnu = build_invocation(&b, Variant::Gnu, "t", "app.rc", Some("o")).unwrap();
    assert_eq!(gnu.args[0], "-DEMPTY=");
    let msvc = build_invocation(&b, Variant::Msvc, "t", "app.rc", Some("o")).unwrap();
    assert_eq!(msvc.args[0], "/dEMPTY=");
}

#[test]
fn resource_path_with_directories_uses_final_component() {
    let b = Build::new();
    let inv = build_invocation(&b, Variant::Gnu, "t", "res\\sub/app.rc", Some("C:\\out"))
        .unwrap();
    assert_eq!(inv.args.last().unwrap(), "C:\\out\\libapp.res.a");
}

#[test]
fn resource_name_without_extension_still_gets_suffixes() {
    let b = Build::new();
    let inv = build_invocation(&b, Variant::Msvc, "t", "app", Some("C:\\out")).unwrap();
    assert_eq!(inv.args[0], "/foC:\\out\\app.res.lib");
}

#[test]
fn output_dir_with_trailing_separator_is_not_doubled() {
    let b = Build::new();
    let inv = build_invocation(&b, Variant::Gnu, "t", "app.rc", Some("C:\\out\\")).unwrap();
    assert_eq!(inv.args.last().unwrap(), "C:\\out\\libapp.res.a");
}

#[test]
fn missing_output_dir_is_a_configuration_error() {
    let b = Build::new();
    let r = build_invocation(&b, Variant::Gnu, "t", "app.rc", None);
    assert_eq!(r.unwrap_err(), Error::InvalidConfiguration);
}

#[test]
fn resource_path_without_file_name_is_a_configuration_error() {
    let b = Build::new();
    for bad in ["", "dir\\", "dir/", ".", "..", "a\\.."] {
        let r = build_invocation(&b, Variant::Msvc, "t", bad, Some("o"));
        assert_eq!(r.unwrap_err(), Error::InvalidConfiguration, "path {bad:?}");
    }
}
