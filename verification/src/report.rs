//! Interprets the child process's terminal status. Success (exit code 0)
//! yields exactly three build-orchestrator directive lines, in fixed order:
//! the native search path holding the artifact, the library to link, and
//! the resource path whose change should trigger a rerun. Any failure
//! yields a typed error and no lines at all.

use vstd::prelude::*;

use crate::{Error, Variant};

verus! {

/// Terminal status of the resource compiler process, as observed by the
/// harness's blocking wait.
#[derive(Clone, Copy, Debug, PartialEq, Eq, Structural)]
pub enum ProcessStatus {
    /// The process exited with the carried code; 0 is success.
    Exited(i32),
    /// The process was terminated abnormally, with no exit code available.
    Abnormal,
}

/// The directive naming the directory that holds the produced artifact.
pub open spec fn search_dir_line(out_dir: Seq<char>) -> Seq<char> {
    "cargo:rustc-link-search=native="@ + out_dir
}

/// The directive naming the library to link: both variants name
/// `<stem>.res`; the GNU artifact is a static archive and says so.
pub open spec fn link_lib_line(v: Variant, stem: Seq<char>) -> Seq<char> {
    match v {
        Variant::Gnu => "cargo:rustc-link-lib=static="@ + stem + ".res"@,
        Variant::Msvc => "cargo:rustc-link-lib="@ + stem + ".res"@,
    }
}

/// The directive naming the resource path whose change triggers a rerun.
pub open spec fn rerun_line(rc_path: Seq<char>) -> Seq<char> {
    "cargo:rerun-if-changed="@ + rc_path
}

/// The three directive lines of one successful run, in their fixed order.
pub open spec fn directive_lines(
    v: Variant,
    out_dir: Seq<char>,
    stem: Seq<char>,
    rc_path: Seq<char>,
) -> Seq<Seq<char>> {
    seq![search_dir_line(out_dir), link_lib_line(v, stem), rerun_line(rc_path)]
}

/// Maps the process's terminal status to the directive lines or the error
/// owed for it: exit code 0 yields exactly the three lines, a nonzero code
/// is reported with that code, and an abnormal termination carries none.
pub fn report_outcome(
    status: ProcessStatus,
    v: Variant,
    out_dir: &str,
    stem: &str,
    rc_file: &str,
) -> (r: Result<Vec<String>, Error>)
    ensures
        r is Ok <==> status == ProcessStatus::Exited(0),
        r matches Ok(lines) ==> lines.deep_view() == directive_lines(
            v,
            out_dir@,
            stem@,
            rc_file@,
        ) && lines@.len() == 3,
        status matches ProcessStatus::Exited(c) ==> (c != 0 ==> r == Err::<Vec<String>, Error>(
            Error::CompilerReportedError(c),
        )),
        status == ProcessStatus::Abnormal ==> r == Err::<Vec<String>, Error>(
            Error::ProcessInterrupted,
        ),
{
    match status {
        ProcessStatus::Exited(code) => {
            if code == 0 {
                let mut lines: Vec<String> = Vec::new();
                let mut search = "cargo:rustc-link-search=native=".to_owned();
                search.append(out_dir);
                lines.push(search);
                let mut link: String = match v {
                    Variant::Gnu => "cargo:rustc-link-lib=static=".to_owned(),
                    Variant::Msvc => "cargo:rustc-link-lib=".to_owned(),
                };
                link.append(stem);
                link.append(".res");
                lines.push(link);
                let mut rerun = "cargo:rerun-if-changed=".to_owned();
                rerun.append(rc_file);
                lines.push(rerun);
                proof {
                    assert(lines.deep_view() =~= directive_lines(v, out_dir@, stem@, rc_file@));
                }
                Ok(lines)
            } else {
                Err(Error::CompilerReportedError(code))
            }
        },
        ProcessStatus::Abnormal => Err(Error::ProcessInterrupted),
    }
}

/// Law: a successful run produces exactly three directive lines, in the
/// fixed order search path, library to link, rerun trigger; the reporter's
/// contract ties any failure to an error value carrying no lines.
pub proof fn lemma_three_directives(
    v: Variant,
    out_dir: Seq<char>,
    stem: Seq<char>,
    rc_path: Seq<char>,
)
    ensures
        directive_lines(v, out_dir, stem, rc_path).len() == 3,
        directive_lines(v, out_dir, stem, rc_path)[0] == search_dir_line(out_dir),
        directive_lines(v, out_dir, stem, rc_path)[1] == link_lib_line(v, stem),
        directive_lines(v, out_dir, stem, rc_path)[2] == rerun_line(rc_path),
{
}

} // verus!
