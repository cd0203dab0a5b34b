//! Builds the resource compiler's argument vector from a [`Build`]
//! configuration, a resolved compiler path, a resource-script path and the
//! output directory. Each configuration item maps to one token in strictly
//! variant-specific syntax; the configuration's insertion order is preserved
//! exactly, and a fixed tail of flags, the resource path and the output
//! path follows.

use vstd::prelude::*;

use crate::paths::{spec_join, spec_file_name, spec_stem, join_path, file_name_of, stem_of};
use crate::{Build, BuildView, Error, Variant};

verus! {

/// Flag prefix for a header-search directory: `-I` or `/i`.
pub open spec fn inc_dir_prefix(v: Variant) -> Seq<char> {
    match v {
        Variant::Gnu => "-I"@,
        Variant::Msvc => "/i"@,
    }
}

/// Flag prefix for a definition: `-D` or `/d`.
pub open spec fn define_prefix(v: Variant) -> Seq<char> {
    match v {
        Variant::Gnu => "-D"@,
        Variant::Msvc => "/d"@,
    }
}

/// Flag prefix for an undefined name: `-U` or `/u`.
pub open spec fn undefine_prefix(v: Variant) -> Seq<char> {
    match v {
        Variant::Gnu => "-U"@,
        Variant::Msvc => "/u"@,
    }
}

/// The single token for one header-search directory.
pub open spec fn inc_dir_token(v: Variant, path: Seq<char>) -> Seq<char> {
    inc_dir_prefix(v) + path
}

/// The single token for one definition: no `=` is added without a value; a
/// present-but-empty value still yields a trailing `=`.
pub open spec fn define_token(v: Variant, name: Seq<char>, value: Option<Seq<char>>) -> Seq<
    char,
> {
    match value {
        Some(val) => define_prefix(v) + name + "="@ + val,
        None => define_prefix(v) + name,
    }
}

/// The single token for one undefined name.
pub open spec fn undefine_token(v: Variant, name: Seq<char>) -> Seq<char> {
    undefine_prefix(v) + name
}

/// The configuration-derived tokens: all header-search directories, then
/// all definitions, then all undefined names, each sequence in its
/// insertion order.
pub open spec fn config_tokens(v: Variant, bv: BuildView) -> Seq<Seq<char>> {
    bv.inc_dirs.map_values(|p: Seq<char>| inc_dir_token(v, p)) + bv.defines.map_values(
        |d: (Seq<char>, Option<Seq<char>>)| define_token(v, d.0, d.1),
    ) + bv.undefines.map_values(|u: Seq<char>| undefine_token(v, u))
}

/// The output artifact's file name, derived from the resource file's stem:
/// a static-archive name for GNU, a `.res.lib` name for Microsoft.
pub open spec fn output_name(v: Variant, stem: Seq<char>) -> Seq<char> {
    match v {
        Variant::Gnu => "lib"@ + stem + ".res.a"@,
        Variant::Msvc => stem + ".res.lib"@,
    }
}

/// The output artifact's full path inside the output directory.
pub open spec fn output_path(v: Variant, out_dir: Seq<char>, stem: Seq<char>) -> Seq<char> {
    spec_join(out_dir, output_name(v, stem))
}

/// The fixed tokens that follow the configuration-derived ones: output
/// format / output file, verbosity, code page, the resource path, and (GNU
/// only) the output path as the final token.
pub open spec fn trailing_tokens(v: Variant, rc_path: Seq<char>, out_path: Seq<char>) -> Seq<
    Seq<char>,
> {
    match v {
        Variant::Gnu => seq!["-Ocoff"@, "-v"@, "-c65001"@, rc_path, out_path],
        Variant::Msvc => seq!["/fo"@ + out_path, "/v"@, "/nologo"@, "/c65001"@, rc_path],
    }
}

/// The whole argument vector for one invocation.
pub open spec fn invocation_tokens(
    v: Variant,
    bv: BuildView,
    rc_path: Seq<char>,
    out_dir: Seq<char>,
    stem: Seq<char>,
) -> Seq<Seq<char>> {
    config_tokens(v, bv) + trailing_tokens(v, rc_path, output_path(v, out_dir, stem))
}

/// A fully formed process invocation: the executable to run and its
/// argument vector, in order. No stdin is ever supplied.
#[derive(Clone, Debug)]
pub struct Invocation {
    /// Path of the resource compiler to execute.
    pub program: String,
    /// Arguments, in the exact order they are to be passed.
    pub args: Vec<String>,
}

/// Builds the token for one header-search directory.
pub fn inc_dir_arg(v: Variant, path: &str) -> (r: String)
    ensures
        r@ == inc_dir_token(v, path@),
{
    let mut s: String = match v {
        Variant::Gnu => "-I".to_owned(),
        Variant::Msvc => "/i".to_owned(),
    };
    s.append(path);
    s
}

/// Builds the token for one definition.
pub fn define_arg(v: Variant, name: &str, value: Option<&str>) -> (r: String)
    ensures
        r@ == define_token(v, name@, value.deep_view()),
{
    let mut s: String = match v {
        Variant::Gnu => "-D".to_owned(),
        Variant::Msvc => "/d".to_owned(),
    };
    s.append(name);
    match value {
        Some(val) => {
            s.append("=");
            s.append(val);
        },
        None => {},
    }
    s
}

/// Builds the token for one undefined name.
pub fn undefine_arg(v: Variant, name: &str) -> (r: String)
    ensures
        r@ == undefine_token(v, name@),
{
    let mut s: String = match v {
        Variant::Gnu => "-U".to_owned(),
        Variant::Msvc => "/u".to_owned(),
    };
    s.append(name);
    s
}

/// Maps a configuration, a resolved compiler path, a resource path and the
/// externally supplied output directory to the full process invocation.
/// A missing output directory, or a resource path with no extractable file
/// name, is a fatal configuration error.
pub fn build_invocation(
    b: &Build,
    v: Variant,
    compiler: &str,
    rc_file: &str,
    out_dir: Option<&str>,
) -> (r: Result<Invocation, Error>)
    ensures
        out_dir is None ==> r == Err::<Invocation, Error>(Error::InvalidConfiguration),
        out_dir is Some && spec_file_name(rc_file@) is None ==> r == Err::<Invocation, Error>(
            Error::InvalidConfiguration,
        ),
        out_dir is Some && spec_file_name(rc_file@) is Some ==> (r matches Ok(inv)
            && inv.program@ == compiler@ && inv.args.deep_view() == invocation_tokens(
            v,
            b@,
            rc_file@,
            out_dir->0@,
            spec_stem(spec_file_name(rc_file@)->0),
        )),
{
    let od: &str = match out_dir {
        Some(d) => d,
        None => {
            return Err(Error::InvalidConfiguration);
        },
    };
    let name: String = match file_name_of(rc_file) {
        Some(n) => n,
        None => {
            return Err(Error::InvalidConfiguration);
        },
    };
    let stem = stem_of(name.as_str());
    let ghost bv = b@;
    let mut args: Vec<String> = Vec::new();

    let incs = b.inc_dirs();
    let mut i: usize = 0;
    while i < incs.len()
        invariant
            i <= incs.len(),
            incs.deep_view() == bv.inc_dirs,
            args.deep_view() =~= bv.inc_dirs.take(i as int).map_values(
                |p: Seq<char>| inc_dir_token(v, p),
            ),
        decreases incs.len() - i,
    {
        args.push(inc_dir_arg(v, incs[i].as_str()));
        proof {
            assert(bv.inc_dirs.take(i + 1).map_values(|p: Seq<char>| inc_dir_token(v, p))
                =~= bv.inc_dirs.take(i as int).map_values(
                |p: Seq<char>| inc_dir_token(v, p),
            ).push(inc_dir_token(v, bv.inc_dirs[i as int])));
        }
        i = i + 1;
    }
    proof {
        assert(bv.inc_dirs.take(bv.inc_dirs.len() as int) =~= bv.inc_dirs);
    }

    let defs = b.defines();
    let mut j: usize = 0;
    while j < defs.len()
        invariant
            j <= defs.len(),
            defs.deep_view() == bv.defines,
            args.deep_view() =~= bv.inc_dirs.map_values(|p: Seq<char>| inc_dir_token(v, p))
                + bv.defines.take(j as int).map_values(
                |d: (Seq<char>, Option<Seq<char>>)| define_token(v, d.0, d.1),
            ),
        decreases defs.len() - j,
    {
        let value: Option<&str> = match &defs[j].1 {
            Some(val) => Some(val.as_str()),
            None => None,
        };
        proof {
            assert(defs.deep_view()[j as int] == bv.defines[j as int]);
            assert(value.deep_view() == bv.defines[j as int].1);
        }
        let ghost before = args.deep_view();
        let ghost tok = define_token(v, bv.defines[j as int].0, bv.defines[j as int].1);
        args.push(define_arg(v, defs[j].0.as_str(), value));
        proof {
            assert(args.deep_view() =~= before.push(tok));
            assert(bv.defines.take(j + 1).map_values(
                |d: (Seq<char>, Option<Seq<char>>)| define_token(v, d.0, d.1),
            ) =~= bv.defines.take(j as int).map_values(
                |d: (Seq<char>, Option<Seq<char>>)| define_token(v, d.0, d.1),
            ).push(tok));
            assert(before.push(tok) =~= bv.inc_dirs.map_values(
                |p: Seq<char>| inc_dir_token(v, p),
            ) + bv.defines.take(j + 1).map_values(
                |d: (Seq<char>, Option<Seq<char>>)| define_token(v, d.0, d.1),
            ));
        }
        j = j + 1;
    }
    proof {
        assert(bv.defines.take(bv.defines.len() as int) =~= bv.defines);
    }

    let undefs = b.undefines();
    let mut k: usize = 0;
    while k < undefs.len()
        invariant
            k <= undefs.len(),
            undefs.deep_view() == bv.undefines,
            args.deep_view() =~= bv.inc_dirs.map_values(|p: Seq<char>| inc_dir_token(v, p))
                + bv.defines.map_values(
                |d: (Seq<char>, Option<Seq<char>>)| define_token(v, d.0, d.1),
            ) + bv.undefines.take(k as int).map_values(|u: Seq<char>| undefine_token(v, u)),
        decreases undefs.len() - k,
    {
        let ghost before = args.deep_view();
        let ghost tok = undefine_token(v, bv.undefines[k as int]);
        args.push(undefine_arg(v, undefs[k].as_str()));
        proof {
            assert(args.deep_view() =~= before.push(tok));
            assert(bv.undefines.take(k + 1).map_values(|u: Seq<char>| undefine_token(v, u))
                =~= bv.undefines.take(k as int).map_values(
                |u: Seq<char>| undefine_token(v, u),
            ).push(tok));
            assert(before.push(tok) =~= bv.inc_dirs.map_values(
                |p: Seq<char>| inc_dir_token(v, p),
            ) + bv.defines.map_values(
                |d: (Seq<char>, Option<Seq<char>>)| define_token(v, d.0, d.1),
            ) + bv.undefines.take(k + 1).map_values(|u: Seq<char>| undefine_token(v, u)));
        }
        k = k + 1;
    }
    proof {
        assert(bv.undefines.take(bv.undefines.len() as int) =~= bv.undefines);
        assert(args.deep_view() =~= config_tokens(v, bv));
    }

    let mut out_name: String = match v {
        Variant::Gnu => "lib".to_owned(),
        Variant::Msvc => String::new(),
    };
    out_name.append(stem.as_str());
    match v {
        Variant::Gnu => out_name.append(".res.a"),
        Variant::Msvc => out_name.append(".res.lib"),
    }
    proof {
        assert(out_name@ =~= output_name(v, stem@));
    }
    let out_path = join_path(od, out_name.as_str());

    match v {
        Variant::Gnu => {
            args.push("-Ocoff".to_owned());
            args.push("-v".to_owned());
            args.push("-c65001".to_owned());
            args.push(rc_file.to_owned());
            args.push(out_path);
        },
        Variant::Msvc => {
            let mut fo = "/fo".to_owned();
            fo.append(out_path.as_str());
            args.push(fo);
            args.push("/v".to_owned());
            args.push("/nologo".to_owned());
            args.push("/c65001".to_owned());
            args.push(rc_file.to_owned());
        },
    }
    proof {
        assert(args.deep_view() =~= invocation_tokens(
            v,
            bv,
            rc_file@,
            od@,
            spec_stem(spec_file_name(rc_file@)->0),
        ));
    }
    Ok(Invocation { program: compiler.to_owned(), args })
}

/// Law: a definition added without a value yields a single token with no
/// `=` (provided the name itself holds none), and a definition with a
/// present-but-empty value still yields a token ending in `=`.
pub proof fn lemma_define_token_shape(v: Variant, name: Seq<char>, value: Seq<char>)
    ensures
        define_token(v, name, None) == define_prefix(v) + name,
        define_token(v, name, Some(value)) == define_prefix(v) + name + "="@ + value,
        !name.contains('=') ==> !define_token(v, name, None).contains('='),
        define_token(v, name, Some(Seq::empty())) == define_prefix(v) + name + "="@,
{
    reveal_strlit("-D");
    reveal_strlit("/d");
    assert(define_prefix(v).len() == 2);
    assert(define_prefix(v)[0] != '=' && define_prefix(v)[1] != '=');
    if !name.contains('=') && define_token(v, name, None).contains('=') {
        let i = choose|i: int|
            0 <= i < define_token(v, name, None).len() && define_token(v, name, None)[i] == '=';
        if i < 2 {
            assert(define_token(v, name, None)[i] == define_prefix(v)[i]);
        } else {
            assert(define_token(v, name, None)[i] == name[i - 2]);
            assert(name.contains('='));
        }
    }
    assert(define_token(v, name, Some(Seq::empty())) =~= define_prefix(v) + name + "="@);
}

/// Law: the two variants never share argument syntax for the same
/// configuration item; the flag prefix (`-` against `/`) is determined by
/// the variant alone, so the same item always maps to different tokens
/// under the two variants.
pub proof fn lemma_variant_syntax_disjoint(
    p: Seq<char>,
    n: Seq<char>,
    v: Option<Seq<char>>,
    u: Seq<char>,
)
    ensures
        inc_dir_token(Variant::Gnu, p)[0] == '-' && inc_dir_token(Variant::Msvc, p)[0] == '/',
        define_token(Variant::Gnu, n, v)[0] == '-' && define_token(Variant::Msvc, n, v)[0]
            == '/',
        undefine_token(Variant::Gnu, u)[0] == '-' && undefine_token(Variant::Msvc, u)[0] == '/',
        inc_dir_token(Variant::Gnu, p) != inc_dir_token(Variant::Msvc, p),
        define_token(Variant::Gnu, n, v) != define_token(Variant::Msvc, n, v),
        undefine_token(Variant::Gnu, u) != undefine_token(Variant::Msvc, u),
{
    reveal_strlit("-I");
    reveal_strlit("/i");
    reveal_strlit("-D");
    reveal_strlit("/d");
    reveal_strlit("-U");
    reveal_strlit("/u");
    assert(inc_dir_token(Variant::Gnu, p)[0] == '-');
    assert(inc_dir_token(Variant::Msvc, p)[0] == '/');
    assert(define_token(Variant::Gnu, n, v)[0] == '-');
    assert(define_token(Variant::Msvc, n, v)[0] == '/');
    assert(undefine_token(Variant::Gnu, u)[0] == '-');
    assert(undefine_token(Variant::Msvc, u)[0] == '/');
    assert(inc_dir_token(Variant::Gnu, p) != inc_dir_token(Variant::Msvc, p)) by {
        if inc_dir_token(Variant::Gnu, p) == inc_dir_token(Variant::Msvc, p) {
            assert(inc_dir_token(Variant::Gnu, p)[0] == inc_dir_token(Variant::Msvc, p)[0]);
        }
    }
    assert(define_token(Variant::Gnu, n, v) != define_token(Variant::Msvc, n, v)) by {
        if define_token(Variant::Gnu, n, v) == define_token(Variant::Msvc, n, v) {
            assert(define_token(Variant::Gnu, n, v)[0] == define_token(Variant::Msvc, n, v)[0]);
        }
    }
    assert(undefine_token(Variant::Gnu, u) != undefine_token(Variant::Msvc, u)) by {
        if undefine_token(Variant::Gnu, u) == undefine_token(Variant::Msvc, u) {
            assert(undefine_token(Variant::Gnu, u)[0] == undefine_token(Variant::Msvc, u)[0]);
        }
    }
}

} // verus!
