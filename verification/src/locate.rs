//! Locates the resource compiler.
//!
//! The GNU variant scans the directories of the executable search path, in
//! order, for `windres.exe` and takes the first hit. The Microsoft variant
//! runs tiered discovery: an active developer-shell marker short-circuits
//! everything to a search-path scan for `rc.exe`; otherwise a direct
//! environment override names the SDK binary directory; otherwise the
//! registry is consulted for the Windows 10 SDK generation and then the
//! Windows 8.1 generation, each value read from the machine hive first and
//! the user hive only after that fails.
//!
//! The Microsoft tiers form a small state machine. Each state names the one
//! outside observation the harness must make (an environment variable, a
//! scan, a registry read); the harness feeds the outcome back into the
//! matching step function, which is verified to pick the next state. The
//! harness contributes no decision of its own.

use vstd::prelude::*;

use crate::paths::{spec_join, join_path};
use crate::registry::Hive;
use crate::Error;

verus! {

/// The build-target architecture, fixed when the build target is resolved,
/// never at run time. It selects the SDK binary subdirectory.
#[derive(Clone, Copy, Debug, PartialEq, Eq, Structural)]
pub enum Arch {
    /// 32-bit x86.
    X86,
    /// 64-bit x86.
    X64,
    /// 32-bit ARM.
    Arm,
    /// 64-bit ARM.
    Arm64,
}

/// The SDK binary subdirectory for an architecture.
pub open spec fn arch_dir_view(a: Arch) -> Seq<char> {
    match a {
        Arch::X86 => "x86"@,
        Arch::X64 => "x64"@,
        Arch::Arm => "arm"@,
        Arch::Arm64 => "arm64"@,
    }
}

/// The architecture-specific relative path of the Microsoft compiler below
/// an SDK binary directory.
pub open spec fn rc_exe_rel(a: Arch) -> Seq<char> {
    arch_dir_view(a) + "\\rc.exe"@
}

/// Executable twin of [`rc_exe_rel`].
pub fn rc_exe_rel_path(a: Arch) -> (r: String)
    ensures
        r@ == rc_exe_rel(a),
{
    let mut s: String = match a {
        Arch::X86 => "x86".to_owned(),
        Arch::X64 => "x64".to_owned(),
        Arch::Arm => "arm".to_owned(),
        Arch::Arm64 => "arm64".to_owned(),
    };
    s.append("\\rc.exe");
    s
}

/// The compiler path under a directly overridden SDK binary directory.
pub open spec fn override_rc_path(dir: Seq<char>, a: Arch) -> Seq<char> {
    spec_join(dir, rc_exe_rel(a))
}

/// The compiler path for a version-10 SDK: the version segment is the
/// discovered product version with a literal `.0` appended, compensating
/// for installed version strings omitting their fourth component.
pub open spec fn sdk10_rc_path(folder: Seq<char>, version: Seq<char>, a: Arch) -> Seq<char> {
    spec_join(folder, "bin\\"@ + version + ".0\\"@ + rc_exe_rel(a))
}

/// The compiler path for an 8.1-generation SDK: no version segment.
pub open spec fn sdk81_rc_path(folder: Seq<char>, a: Arch) -> Seq<char> {
    spec_join(folder, "bin\\"@ + rc_exe_rel(a))
}

/// Builds the version-10 SDK compiler path, per [`sdk10_rc_path`].
pub fn sdk10_rc_exe(folder: &str, version: &str, a: Arch) -> (r: String)
    ensures
        r@ == sdk10_rc_path(folder@, version@, a),
{
    let mut rel = "bin\\".to_owned();
    rel.append(version);
    rel.append(".0\\");
    let tail = rc_exe_rel_path(a);
    rel.append(tail.as_str());
    proof {
        assert(rel@ =~= "bin\\"@ + version@ + ".0\\"@ + rc_exe_rel(a));
    }
    join_path(folder, rel.as_str())
}

/// Builds the 8.1-generation SDK compiler path, per [`sdk81_rc_path`].
pub fn sdk81_rc_exe(folder: &str, a: Arch) -> (r: String)
    ensures
        r@ == sdk81_rc_path(folder@, a),
{
    let mut rel = "bin\\".to_owned();
    let tail = rc_exe_rel_path(a);
    rel.append(tail.as_str());
    proof {
        assert(rel@ =~= "bin\\"@ + rc_exe_rel(a));
    }
    join_path(folder, rel.as_str())
}

/// The binary the GNU variant searches the executable path for.
pub fn gnu_tool_name() -> (r: &'static str)
    ensures
        r@ == "windres.exe"@,
{
    "windres.exe"
}

/// The binary the Microsoft developer-shell tier searches the executable
/// path for.
pub fn msvc_tool_name() -> (r: &'static str)
    ensures
        r@ == "rc.exe"@,
{
    "rc.exe"
}

/// Joins every search-path directory with the tool name, in order; the
/// harness reports which of these candidate files exist.
pub fn tool_candidates(dirs: &Vec<String>, tool: &str) -> (r: Vec<String>)
    ensures
        r@.len() == dirs@.len(),
        forall|i: int|
            0 <= i < dirs@.len() ==> r.deep_view()[i] == spec_join(dirs.deep_view()[i], tool@),
{
    let mut r: Vec<String> = Vec::new();
    let mut i: usize = 0;
    while i < dirs.len()
        invariant
            i <= dirs@.len(),
            r@.len() == i,
            forall|k: int|
                0 <= k < i ==> r.deep_view()[k] == spec_join(dirs.deep_view()[k], tool@),
        decreases dirs@.len() - i,
    {
        let ghost before = r.deep_view();
        let c = join_path(dirs[i].as_str(), tool);
        r.push(c);
        proof {
            assert(r.deep_view() =~= before.push(spec_join(dirs@[i as int]@, tool@)));
            assert(dirs.deep_view()[i as int] == dirs@[i as int]@);
        }
        i = i + 1;
    }
    r
}

/// Picks the first candidate the harness found to exist; `None` if none
/// exists.
pub fn pick_first_existing(cands: &Vec<String>, found: &Vec<bool>) -> (r: Option<String>)
    requires
        cands@.len() == found@.len(),
    ensures
        r is None ==> forall|i: int| 0 <= i < found@.len() ==> !found@[i],
        r matches Some(p) ==> exists|i: int|
            0 <= i < found@.len() && found@[i] && p@ == cands.deep_view()[i] && (forall|j: int|
                0 <= j < i ==> !found@[j]),
{
    let mut i: usize = 0;
    while i < cands.len()
        invariant
            i <= cands@.len(),
            cands@.len() == found@.len(),
            forall|j: int| 0 <= j < i ==> !found@[j],
        decreases cands@.len() - i,
    {
        if found[i] {
            let p = cands[i].clone();
            proof {
                assert(0 <= i < found@.len() && found@[i as int] && p@ == cands.deep_view()[
                    i as int
                ] && (forall|j: int| 0 <= j < i ==> !found@[j]));
            }
            return Some(p);
        }
        i = i + 1;
    }
    None
}

/// The whole GNU variant: the first directory whose candidate exists wins;
/// if the search path is empty or no candidate exists, the tool is not
/// found. No version discrimination is performed.
pub fn locate_gnu(cands: &Vec<String>, found: &Vec<bool>) -> (r: Result<String, Error>)
    requires
        cands@.len() == found@.len(),
    ensures
        r is Err ==> r == Err::<String, Error>(Error::ToolNotFound) && (forall|i: int|
            0 <= i < found@.len() ==> !found@[i]),
        r matches Ok(p) ==> exists|i: int|
            0 <= i < found@.len() && found@[i] && p@ == cands.deep_view()[i] && (forall|j: int|
                0 <= j < i ==> !found@[j]),
{
    match pick_first_existing(cands, found) {
        Some(p) => Ok(p),
        None => Err(Error::ToolNotFound),
    }
}

/// The abstract value of a [`MsvcLocate`] state.
#[verifier::ext_equal]
pub enum MsvcLocateV {
    /// Ask whether the developer-shell marker variable is set.
    CheckDevShell,
    /// Scan the executable search path for the compiler.
    ScanSearchPath,
    /// Read the SDK binary-directory override variable.
    CheckOverride,
    /// Read `InstallationFolder` of the version-10 subkey from `hive`.
    ReadSdk10Folder { hive: Hive },
    /// Read `ProductVersion` of the version-10 subkey from `hive`.
    ReadSdk10Version { hive: Hive, folder: Seq<char> },
    /// Read `InstallationFolder` of the 8.1 subkey from `hive`.
    ReadSdk81Folder { hive: Hive },
    /// Discovery has finished.
    Done { result: Result<Seq<char>, Error> },
}

/// One state of Microsoft tiered discovery. Every non-`Done` state names
/// the one outside observation the harness must make next; the matching
/// step function maps its outcome to the following state.
#[derive(Debug)]
pub enum MsvcLocate {
    /// Ask whether the developer-shell marker variable is set.
    CheckDevShell,
    /// Scan the executable search path for the compiler.
    ScanSearchPath,
    /// Read the SDK binary-directory override variable.
    CheckOverride,
    /// Read `InstallationFolder` of the version-10 subkey from `hive`.
    ReadSdk10Folder { hive: Hive },
    /// Read `ProductVersion` of the version-10 subkey from `hive`.
    ReadSdk10Version { hive: Hive, folder: String },
    /// Read `InstallationFolder` of the 8.1 subkey from `hive`.
    ReadSdk81Folder { hive: Hive },
    /// Discovery has finished.
    Done { result: Result<String, Error> },
}

impl View for MsvcLocate {
    type V = MsvcLocateV;

    open spec fn view(&self) -> MsvcLocateV {
        match self {
            MsvcLocate::CheckDevShell => MsvcLocateV::CheckDevShell,
            MsvcLocate::ScanSearchPath => MsvcLocateV::ScanSearchPath,
            MsvcLocate::CheckOverride => MsvcLocateV::CheckOverride,
            MsvcLocate::ReadSdk10Folder { hive } => MsvcLocateV::ReadSdk10Folder {
                hive: *hive,
            },
            MsvcLocate::ReadSdk10Version { hive, folder } => MsvcLocateV::ReadSdk10Version {
                hive: *hive,
                folder: folder@,
            },
            MsvcLocate::ReadSdk81Folder { hive } => MsvcLocateV::ReadSdk81Folder {
                hive: *hive,
            },
            MsvcLocate::Done { result } => MsvcLocateV::Done {
                result: match result {
                    Ok(p) => Ok(p@),
                    Err(e) => Err(*e),
                },
            },
        }
    }
}

/// The abstract value of a discovery outcome handed back by the harness.
pub open spec fn outcome_view(r: Result<String, Error>) -> Result<Seq<char>, Error> {
    match r {
        Ok(s) => Ok(s@),
        Err(e) => Err(e),
    }
}

/// Next state after learning whether the developer-shell marker is set: if
/// it is, only the search-path scan is ever tried; all later tiers are
/// skipped, because the marker says the caller expects that scan to work.
pub open spec fn step_dev_shell(present: bool) -> MsvcLocateV {
    if present {
        MsvcLocateV::ScanSearchPath
    } else {
        MsvcLocateV::CheckOverride
    }
}

/// Next state after the search-path scan: its result is final either way.
pub open spec fn step_scan(found: Option<Seq<char>>) -> MsvcLocateV {
    match found {
        Some(p) => MsvcLocateV::Done { result: Ok(p) },
        None => MsvcLocateV::Done { result: Err(Error::ToolNotFound) },
    }
}

/// Next state after reading the override variable: a present override is
/// taken unconditionally, without checking that the file exists; an absent
/// one starts registry discovery at the newest generation, machine hive.
pub open spec fn step_override(value: Option<Seq<char>>, a: Arch) -> MsvcLocateV {
    match value {
        Some(dir) => MsvcLocateV::Done { result: Ok(override_rc_path(dir, a)) },
        None => MsvcLocateV::ReadSdk10Folder { hive: Hive::Machine },
    }
}

/// Next state after reading the version-10 `InstallationFolder`: success
/// moves on to `ProductVersion`, starting again at the machine hive; a
/// machine-hive failure retries the user hive; a user-hive failure falls
/// back to the 8.1 generation.
pub open spec fn step_sdk10_folder(hive: Hive, outcome: Result<Seq<char>, Error>) -> MsvcLocateV {
    match outcome {
        Ok(folder) => MsvcLocateV::ReadSdk10Version { hive: Hive::Machine, folder },
        Err(_) => match hive {
            Hive::Machine => MsvcLocateV::ReadSdk10Folder { hive: Hive::User },
            Hive::User => MsvcLocateV::ReadSdk81Folder { hive: Hive::Machine },
        },
    }
}

/// Next state after reading the version-10 `ProductVersion`: success
/// finishes with the version-10 path; failures proceed as for the folder.
pub open spec fn step_sdk10_version(
    hive: Hive,
    folder: Seq<char>,
    outcome: Result<Seq<char>, Error>,
    a: Arch,
) -> MsvcLocateV {
    match outcome {
        Ok(ver) => MsvcLocateV::Done { result: Ok(sdk10_rc_path(folder, ver, a)) },
        Err(_) => match hive {
            Hive::Machine => MsvcLocateV::ReadSdk10Version { hive: Hive::User, folder },
            Hive::User => MsvcLocateV::ReadSdk81Folder { hive: Hive::Machine },
        },
    }
}

/// Next state after reading the 8.1 `InstallationFolder`: success finishes
/// with the versionless 8.1 path; a machine-hive failure retries the user
/// hive; a user-hive failure exhausts discovery, and every earlier lookup
/// failure is folded into the one `ToolNotFound`.
pub open spec fn step_sdk81_folder(
    hive: Hive,
    outcome: Result<Seq<char>, Error>,
    a: Arch,
) -> MsvcLocateV {
    match outcome {
        Ok(folder) => MsvcLocateV::Done { result: Ok(sdk81_rc_path(folder, a)) },
        Err(_) => match hive {
            Hive::Machine => MsvcLocateV::ReadSdk81Folder { hive: Hive::User },
            Hive::User => MsvcLocateV::Done { result: Err(Error::ToolNotFound) },
        },
    }
}

/// The state Microsoft discovery starts in.
pub fn msvc_locate_start() -> (s: MsvcLocate)
    ensures
        s@ == MsvcLocateV::CheckDevShell,
{
    MsvcLocate::CheckDevShell
}

/// Executable twin of [`step_dev_shell`].
pub fn on_dev_shell(present: bool) -> (s: MsvcLocate)
    ensures
        s@ == step_dev_shell(present),
{
    if present {
        MsvcLocate::ScanSearchPath
    } else {
        MsvcLocate::CheckOverride
    }
}

/// Executable twin of [`step_scan`].
pub fn on_search_scan(found: Option<String>) -> (s: MsvcLocate)
    ensures
        s@ == step_scan(found.deep_view()),
{
    match found {
        Some(p) => MsvcLocate::Done { result: Ok(p) },
        None => MsvcLocate::Done { result: Err(Error::ToolNotFound) },
    }
}

/// Executable twin of [`step_override`].
pub fn on_override(value: Option<String>, a: Arch) -> (s: MsvcLocate)
    ensures
        s@ == step_override(value.deep_view(), a),
{
    match value {
        Some(dir) => {
            let rel = rc_exe_rel_path(a);
            let p = join_path(dir.as_str(), rel.as_str());
            MsvcLocate::Done { result: Ok(p) }
        },
        None => MsvcLocate::ReadSdk10Folder { hive: Hive::Machine },
    }
}

/// Executable twin of [`step_sdk10_folder`].
pub fn on_sdk10_folder(hive: Hive, outcome: Result<String, Error>) -> (s: MsvcLocate)
    ensures
        s@ == step_sdk10_folder(hive, outcome_view(outcome)),
{
    match outcome {
        Ok(folder) => MsvcLocate::ReadSdk10Version { hive: Hive::Machine, folder },
        Err(_) => match hive {
            Hive::Machine => MsvcLocate::ReadSdk10Folder { hive: Hive::User },
            Hive::User => MsvcLocate::ReadSdk81Folder { hive: Hive::Machine },
        },
    }
}

/// Executable twin of [`step_sdk10_version`].
pub fn on_sdk10_version(
    hive: Hive,
    folder: String,
    outcome: Result<String, Error>,
    a: Arch,
) -> (s: MsvcLocate)
    ensures
        s@ == step_sdk10_version(hive, folder@, outcome_view(outcome), a),
{
    match outcome {
        Ok(ver) => {
            let p = sdk10_rc_exe(folder.as_str(), ver.as_str(), a);
            MsvcLocate::Done { result: Ok(p) }
        },
        Err(_) => match hive {
            Hive::Machine => MsvcLocate::ReadSdk10Version { hive: Hive::User, folder },
            Hive::User => MsvcLocate::ReadSdk81Folder { hive: Hive::Machine },
        },
    }
}

/// Executable twin of [`step_sdk81_folder`].
pub fn on_sdk81_folder(hive: Hive, outcome: Result<String, Error>, a: Arch) -> (s: MsvcLocate)
    ensures
        s@ == step_sdk81_folder(hive, outcome_view(outcome), a),
{
    match outcome {
        Ok(folder) => {
            let p = sdk81_rc_exe(folder.as_str(), a);
            MsvcLocate::Done { result: Ok(p) }
        },
        Err(_) => match hive {
            Hive::Machine => MsvcLocate::ReadSdk81Folder { hive: Hive::User },
            Hive::User => MsvcLocate::Done { result: Err(Error::ToolNotFound) },
        },
    }
}

/// True of the states that read the user hive.
pub open spec fn reads_user_hive(s: MsvcLocateV) -> bool {
    ||| s == (MsvcLocateV::ReadSdk10Folder { hive: Hive::User })
    ||| s matches MsvcLocateV::ReadSdk10Version { hive: Hive::User, folder: _ }
    ||| s == (MsvcLocateV::ReadSdk81Folder { hive: Hive::User })
}

/// Law: every registry lookup begins at the machine hive: the first
/// registry state entered from the environment tiers reads the machine
/// hive, and after one value succeeds the next value again starts at the
/// machine hive.
pub proof fn lemma_machine_hive_first(a: Arch)
    ensures
        step_override(None, a) == (MsvcLocateV::ReadSdk10Folder { hive: Hive::Machine }),
        forall|hive: Hive, outcome: Result<Seq<char>, Error>|
            outcome is Ok ==> #[trigger] step_sdk10_folder(hive, outcome)
                == (MsvcLocateV::ReadSdk10Version { hive: Hive::Machine, folder: outcome->Ok_0 }),
{
}

/// Law: the user hive is never consulted for a value the machine hive has
/// already answered: no successful read leads to a user-hive state, and a
/// user-hive state arises only from the failed machine-hive read of the
/// same value.
pub proof fn lemma_user_hive_only_after_machine_failure(a: Arch)
    ensures
        forall|hive: Hive, outcome: Result<Seq<char>, Error>|
            outcome is Ok ==> !reads_user_hive(#[trigger] step_sdk10_folder(hive, outcome)),
        forall|hive: Hive, folder: Seq<char>, outcome: Result<Seq<char>, Error>|
            outcome is Ok ==> !reads_user_hive(
                #[trigger] step_sdk10_version(hive, folder, outcome, a),
            ),
        forall|hive: Hive, outcome: Result<Seq<char>, Error>|
            outcome is Ok ==> !reads_user_hive(#[trigger] step_sdk81_folder(hive, outcome, a)),
        forall|hive: Hive, outcome: Result<Seq<char>, Error>|
            reads_user_hive(#[trigger] step_sdk10_folder(hive, outcome)) ==> hive == Hive::Machine
                && outcome is Err,
        forall|hive: Hive, folder: Seq<char>, outcome: Result<Seq<char>, Error>|
            reads_user_hive(#[trigger] step_sdk10_version(hive, folder, outcome, a)) ==> hive
                == Hive::Machine && outcome is Err,
        forall|hive: Hive, outcome: Result<Seq<char>, Error>|
            reads_user_hive(#[trigger] step_sdk81_folder(hive, outcome, a)) ==> hive
                == Hive::Machine && outcome is Err,
{
}

/// Law: a version-10 path embeds the discovered product version followed by
/// a literal `.0`; the 8.1 path is built from the folder and architecture
/// alone, with no version segment anywhere.
pub proof fn lemma_sdk_path_shape(folder: Seq<char>, version: Seq<char>, a: Arch)
    ensures
        sdk10_rc_path(folder, version, a) == spec_join(
            folder,
            "bin\\"@ + version + ".0\\"@ + arch_dir_view(a) + "\\rc.exe"@,
        ),
        sdk81_rc_path(folder, a) == spec_join(folder, "bin\\"@ + arch_dir_view(a) + "\\rc.exe"@),
{
    assert("bin\\"@ + version + ".0\\"@ + rc_exe_rel(a) =~= "bin\\"@ + version + ".0\\"@
        + arch_dir_view(a) + "\\rc.exe"@);
    assert("bin\\"@ + rc_exe_rel(a) =~= "bin\\"@ + arch_dir_view(a) + "\\rc.exe"@);
}

} // verus!
