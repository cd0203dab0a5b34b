//! Compiles Windows resource scripts (`.rc`) into linkable objects for a
//! Cargo build: locates a platform resource compiler (GNU `windres.exe` or
//! the Microsoft SDK's `rc.exe`), translates a builder configuration into
//! that tool's command line, and interprets the tool's exit status as build
//! directives or a typed error.
//!
//! All decision logic lives here, verified. Reading environment variables,
//! probing the file system and the registry, and spawning the child process
//! are left to a thin unverified harness, which feeds each outcome back in
//! as a plain value and performs the next step this library tells it to.

use vstd::prelude::*;

pub mod args;
pub mod locate;
pub mod paths;
pub mod registry;
pub mod report;

verus! {

/// The two mutually exclusive resource-compiler toolchains. The choice is
/// made once per build target, never at run time, and the two variants share
/// no flag syntax.
#[derive(Clone, Copy, Debug, PartialEq, Eq, Structural)]
pub enum Variant {
    /// GNU-style toolchain: `windres.exe`, flags starting with `-`.
    Gnu,
    /// Microsoft-style toolchain: `rc.exe`, flags starting with `/`.
    Msvc,
}

/// Everything that can go wrong between building a configuration and
/// reporting the child process's outcome.
#[derive(Clone, Copy, Debug, PartialEq, Eq, Structural)]
pub enum Error {
    /// Every discovery tier was exhausted without finding a compiler.
    ToolNotFound,
    /// A single registry lookup failed; carries the underlying status code.
    /// Folded into `ToolNotFound` once every tier has failed.
    RegistryLookupFailed(i32),
    /// The output directory is missing, or the resource path has no
    /// extractable file name: an unrecoverable caller error.
    InvalidConfiguration,
    /// The compiler ran and reported the carried nonzero exit code.
    CompilerReportedError(i32),
    /// The compiler was terminated abnormally, with no exit code available.
    ProcessInterrupted,
}

/// The abstract value of a [`Build`]: three ordered sequences, one per kind
/// of preprocessor item. Order of insertion is preserved end-to-end into the
/// argument list, because last-definition-wins semantics depend on it.
#[verifier::ext_equal]
pub struct BuildView {
    /// Directories handed to the preprocessor's header search, in insertion
    /// order, duplicates kept.
    pub inc_dirs: Seq<Seq<char>>,
    /// Preprocessor definitions `(name, optional value)`, in insertion order.
    pub defines: Seq<(Seq<char>, Option<Seq<char>>)>,
    /// Preprocessor names to undefine, in insertion order.
    pub undefines: Seq<Seq<char>>,
}

impl BuildView {
    /// The value of a freshly created builder.
    pub open spec fn empty() -> BuildView {
        BuildView { inc_dirs: Seq::empty(), defines: Seq::empty(), undefines: Seq::empty() }
    }

    /// Appends one header-search directory.
    pub open spec fn with_inc_dir(self, path: Seq<char>) -> BuildView {
        BuildView { inc_dirs: self.inc_dirs.push(path), ..self }
    }

    /// Appends one definition.
    pub open spec fn with_define(self, name: Seq<char>, value: Option<Seq<char>>) -> BuildView {
        BuildView { defines: self.defines.push((name, value)), ..self }
    }

    /// Appends one undefined name.
    pub open spec fn with_undefine(self, name: Seq<char>) -> BuildView {
        BuildView { undefines: self.undefines.push(name), ..self }
    }
}

/// A builder for one resource-compiler invocation: an accumulator of
/// header-search directories, preprocessor definitions and un-definitions.
/// Created empty, mutated only by appends, consumed read-only when the
/// command line is built.
#[derive(Clone, Debug)]
pub struct Build {
    inc_dirs: Vec<String>,
    defines: Vec<(String, Option<String>)>,
    undefines: Vec<String>,
}

impl View for Build {
    type V = BuildView;

    closed spec fn view(&self) -> BuildView {
        BuildView {
            inc_dirs: self.inc_dirs.deep_view(),
            defines: self.defines.deep_view(),
            undefines: self.undefines.deep_view(),
        }
    }
}

impl Build {
    /// Creates a new, empty builder.
    pub fn new() -> (b: Build)
        ensures
            b@ == BuildView::empty(),
    {
        let b = Build { inc_dirs: Vec::new(), defines: Vec::new(), undefines: Vec::new() };
        proof {
            assert(b@ =~= BuildView::empty());
        }
        b
    }

    /// Appends a directory to the preprocessor's header search path
    /// (`-I<path>` or `/i<path>`).
    pub fn add_inc_dir(&mut self, path: &str)
        ensures
            final(self)@ == old(self)@.with_inc_dir(path@),
    {
        self.inc_dirs.push(path.to_owned());
        proof {
            assert(self@ =~= old(self)@.with_inc_dir(path@));
        }
    }

    /// Appends a preprocessor definition (`-D<name>[=<value>]` or
    /// `/d<name>[=<value>]`). A present-but-empty value is kept distinct
    /// from no value at all.
    pub fn define(&mut self, name: &str, value: Option<&str>)
        ensures
            final(self)@ == old(self)@.with_define(name@, value.deep_view()),
    {
        let owned: Option<String> = match value {
            Some(v) => Some(v.to_owned()),
            None => None,
        };
        self.defines.push((name.to_owned(), owned));
        proof {
            assert(self@ =~= old(self)@.with_define(name@, value.deep_view()));
        }
    }

    /// Appends a preprocessor name to undefine (`-U<name>` or `/u<name>`).
    pub fn undefine(&mut self, name: &str)
        ensures
            final(self)@ == old(self)@.with_undefine(name@),
    {
        self.undefines.push(name.to_owned());
        proof {
            assert(self@ =~= old(self)@.with_undefine(name@));
        }
    }

    /// The header-search directories, in insertion order.
    pub fn inc_dirs(&self) -> (r: &Vec<String>)
        ensures
            r.deep_view() == self@.inc_dirs,
    {
        &self.inc_dirs
    }

    /// The definitions, in insertion order.
    pub fn defines(&self) -> (r: &Vec<(String, Option<String>)>)
        ensures
            r.deep_view() == self@.defines,
    {
        &self.defines
    }

    /// The undefined names, in insertion order.
    pub fn undefines(&self) -> (r: &Vec<String>)
        ensures
            r.deep_view() == self@.undefines,
    {
        &self.undefines
    }
}

impl Default for Build {
    /// Same as [`Build::new`].
    fn default() -> (b: Build)
        ensures
            b@ == BuildView::empty(),
    {
        Build::new()
    }
}

/// Law: items of different kinds land in separate sequences, so the order in
/// which the three append operations are interleaved cannot change any of
/// them; only the relative order of appends of the same kind is observable.
/// Together with the command-line builder's contract, the argument vector is
/// therefore independent of how calls of different kinds were interleaved.
pub proof fn lemma_append_kinds_commute(
    bv: BuildView,
    p: Seq<char>,
    n: Seq<char>,
    v: Option<Seq<char>>,
    u: Seq<char>,
)
    ensures
        bv.with_inc_dir(p).with_define(n, v) == bv.with_define(n, v).with_inc_dir(p),
        bv.with_inc_dir(p).with_undefine(u) == bv.with_undefine(u).with_inc_dir(p),
        bv.with_define(n, v).with_undefine(u) == bv.with_undefine(u).with_define(n, v),
{
    assert(bv.with_inc_dir(p).with_define(n, v) =~= bv.with_define(n, v).with_inc_dir(p));
    assert(bv.with_inc_dir(p).with_undefine(u) =~= bv.with_undefine(u).with_inc_dir(p));
    assert(bv.with_define(n, v).with_undefine(u) =~= bv.with_undefine(u).with_define(n, v));
}

} // verus!
