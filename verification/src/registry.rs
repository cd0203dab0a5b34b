//! Interprets raw registry string reads for the Microsoft discovery tiers.
//!
//! The harness performs one OS call per read, against one of two fixed
//! subkeys (one per SDK generation), requesting a plain-string value into a
//! fixed-size buffer of UTF-16 code units and the 32-bit registry view, and
//! hands back the raw status code and buffer. Everything after the call is
//! interpreted here: a nonzero status is a lookup failure carrying that
//! status; an over-long value is a lookup failure rather than a silent
//! truncation; on success the trailing null terminator the API includes in
//! its output is trimmed and the code units are decoded.

use vstd::prelude::*;

use crate::Error;

verus! {

/// The two root namespaces tried by registry discovery: machine-wide first,
/// then the current user.
#[derive(Clone, Copy, Debug, PartialEq, Eq, Structural)]
pub enum Hive {
    /// The machine-wide hive (`HKEY_LOCAL_MACHINE`).
    Machine,
    /// The current-user hive (`HKEY_CURRENT_USER`).
    User,
}

/// The two SDK generations known to registry discovery.
#[derive(Clone, Copy, Debug, PartialEq, Eq, Structural)]
pub enum SdkGen {
    /// The Windows 10 SDK generation; its paths embed a version segment.
    Ten,
    /// The Windows 8.1 SDK generation; its paths have no version segment.
    EightOne,
}

/// The string values read from an SDK subkey.
#[derive(Clone, Copy, Debug, PartialEq, Eq, Structural)]
pub enum RegValueName {
    /// The SDK's installation root directory.
    InstallationFolder,
    /// The SDK's product version string.
    ProductVersion,
}

/// Longest registry string value accepted, in UTF-16 code units: the
/// buffer size the harness requests, which is the registry's maximum
/// string length.
pub const REG_MAX_UTF16_UNITS: usize = 32768;

/// Status code reported when a value does not fit the requested buffer.
pub const REG_STATUS_MORE_DATA: i32 = 234;

/// Names the character sequence that UTF-16 decoding yields for a given
/// sequence of code units; a function of the code units alone.
pub uninterp spec fn utf16_decoded(units: Seq<u16>) -> Seq<char>;

/// Relies on `String::from_utf16_lossy`: decodes UTF-16 code units, a
/// function of the code units alone; an empty input yields an empty string.
#[verifier::external_body]
fn utf16_to_string(units: &Vec<u16>) -> (r: String)
    ensures
        r@ == utf16_decoded(units@),
        units@.len() == 0 ==> r@.len() == 0,
{
    String::from_utf16_lossy(units.as_slice())
}

/// `units` with one trailing null code unit removed, if present: the
/// registry API reports the value's length null included.
pub open spec fn spec_trim_nul(units: Seq<u16>) -> Seq<u16> {
    if units.len() > 0 && units.last() == 0 {
        units.drop_last()
    } else {
        units
    }
}

/// The outcome of one registry string read, from the raw status code and
/// the returned code units.
pub open spec fn spec_registry_read(status: i32, units: Seq<u16>) -> Result<Seq<char>, Error> {
    if status != 0 {
        Err(Error::RegistryLookupFailed(status))
    } else if units.len() > REG_MAX_UTF16_UNITS {
        Err(Error::RegistryLookupFailed(REG_STATUS_MORE_DATA))
    } else {
        Ok(utf16_decoded(spec_trim_nul(units)))
    }
}

/// Interprets one raw registry string read, per [`spec_registry_read`]:
/// fails exactly on a nonzero status (carrying it) or an over-long value;
/// otherwise trims the trailing null terminator and decodes.
pub fn registry_read_outcome(status: i32, units: &Vec<u16>) -> (r: Result<String, Error>)
    ensures
        r matches Ok(s) ==> spec_registry_read(status, units@) == Ok::<Seq<char>, Error>(s@),
        r is Err ==> r == Err::<String, Error>(spec_registry_read(status, units@)->Err_0),
        r is Ok <==> spec_registry_read(status, units@) is Ok,
{
    if status != 0 {
        return Err(Error::RegistryLookupFailed(status));
    }
    if units.len() > REG_MAX_UTF16_UNITS {
        return Err(Error::RegistryLookupFailed(REG_STATUS_MORE_DATA));
    }
    let mut n = units.len();
    if n > 0 && units[n - 1] == 0 {
        n = n - 1;
    }
    let mut data: Vec<u16> = Vec::new();
    let mut i: usize = 0;
    while i < n
        invariant
            i <= n <= units@.len(),
            data@ =~= units@.take(i as int),
        decreases n - i,
    {
        data.push(units[i]);
        proof {
            assert(data@ =~= units@.take(i + 1));
        }
        i = i + 1;
    }
    proof {
        assert(data@ =~= spec_trim_nul(units@));
    }
    Ok(utf16_to_string(&data))
}

/// The registry subkey identifying an SDK generation, under either hive.
pub open spec fn registry_subkey_view(g: SdkGen) -> Seq<char> {
    match g {
        SdkGen::Ten => "SOFTWARE\\Microsoft\\Microsoft SDKs\\Windows\\v10.0"@,
        SdkGen::EightOne => "SOFTWARE\\Microsoft\\Microsoft SDKs\\Windows\\v8.1"@,
    }
}

/// The registry subkey for an SDK generation, for the harness to open.
pub fn registry_subkey(g: SdkGen) -> (r: &'static str)
    ensures
        r@ == registry_subkey_view(g),
{
    match g {
        SdkGen::Ten => "SOFTWARE\\Microsoft\\Microsoft SDKs\\Windows\\v10.0",
        SdkGen::EightOne => "SOFTWARE\\Microsoft\\Microsoft SDKs\\Windows\\v8.1",
    }
}

/// The name under which a value is stored in an SDK subkey.
pub open spec fn registry_value_name_view(n: RegValueName) -> Seq<char> {
    match n {
        RegValueName::InstallationFolder => "InstallationFolder"@,
        RegValueName::ProductVersion => "ProductVersion"@,
    }
}

/// The registry value name, for the harness to query.
pub fn registry_value_name(n: RegValueName) -> (r: &'static str)
    ensures
        r@ == registry_value_name_view(n),
{
    match n {
        RegValueName::InstallationFolder => "InstallationFolder",
        RegValueName::ProductVersion => "ProductVersion",
    }
}

} // verus!
