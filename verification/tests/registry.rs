//! Interpretation of raw registry string reads.

use windres::registry::{
    registry_read_outcome, registry_subkey, registry_value_name, RegValueName, SdkGen,
    REG_MAX_UTF16_UNITS, REG_STATUS_MORE_DATA,
};
use windres::Error;

#[test]
fn successful_read_trims_trailing_null_and_decodes() {
    let units: Vec<u16> = vec![0x43, 0x3A, 0x5C, 0x53, 0x44, 0x4B, 0];
    assert_eq!(registry_read_outcome(0, &units).unwrap(), "C:\\SDK");
}

#[test]
fn read_without_trailing_null_is_kept_whole() {
    let units: Vec<u16> = vec![0x41, 0x42];
    assert_eq!(registry_read_outcome(0, &units).unwrap(), "AB");
}

#[test]
fn empty_read_decodes_to_empty_string() {
    assert_eq!(registry_read_outcome(0, &vec![]).unwrap(), "");
}

#[test]
fn nonzero_status_carries_the_status_code() {
    let r = registry_read_outcome(5, &vec![0x41]);
    assert_eq!(r.unwrap_err(), Error::RegistryLookupFailed(5));
}

#[test]
fn over_long_value_is_a_lookup_failure_not_a_truncation() {
    let units: Vec<u16> = vec![0x41; REG_MAX_UTF16_UNITS + 1];
    let r = registry_read_outcome(0, &units);
    assert_eq!(r.unwrap_err(), Error::RegistryLookupFailed(REG_STATUS_MORE_DATA));
}

#[test]
fn value_at_the_buffer_bound_is_accepted() {
    let mut units: Vec<u16> = vec![0x41; REG_MAX_UTF16_UNITS];
    let last = units.len() - 1;
    units[last] = 0;
    let s = registry_read_outcome(0, &units).unwrap();
    assert_eq!(s.len(), REG_MAX_UTF16_UNITS - 1);
}

#[test]
fn subkeys_name_the_two_sdk_generations() {
    assert_eq!(registry_subkey(SdkGen::Ten), "SOFTWARE\\Microsoft\\Microsoft SDKs\\Windows\\v10.0");
    assert_eq!(
        registry_subkey(SdkGen::EightOne),
        "SOFTWARE\\Microsoft\\Microsoft SDKs\\Windows\\v8.1"
    );
}

#[test]
fn value_names_match_the_sdk_entries() {
    assert_eq!(registry_value_name(RegValueName::InstallationFolder), "InstallationFolder");
    assert_eq!(registry_value_name(RegValueName::ProductVersion), "ProductVersion");
}
