//! A small model of Windows path text, as far as this library needs it:
//! joining a directory with a relative component, extracting the final
//! component of a path, and stripping a file name's extension. Paths are
//! plain character sequences; both `\` and `/` separate components, and
//! joining uses `\`, the native separator of the platform the compiled
//! resources target.

use vstd::prelude::*;

verus! {

/// True for the two characters that end a directory component.
pub open spec fn is_sep(c: char) -> bool {
    c == '\\' || c == '/'
}

/// `dir` joined with the relative component `name`: a `\` is inserted
/// unless `dir` already ends in a separator.
pub open spec fn spec_join(dir: Seq<char>, name: Seq<char>) -> Seq<char> {
    if dir.len() > 0 && is_sep(dir.last()) {
        dir + name
    } else {
        dir + "\\"@ + name
    }
}

/// The text after the last separator of `path`; empty if `path` ends in a
/// separator or is empty.
pub open spec fn after_last_sep(path: Seq<char>) -> Seq<char>
    decreases path.len(),
{
    if path.len() == 0 {
        path
    } else if is_sep(path.last()) {
        Seq::empty()
    } else {
        after_last_sep(path.drop_last()).push(path.last())
    }
}

/// The final file-name component of `path`, if one is extractable: the text
/// after the last separator, unless that is empty or one of the relative
/// components `.` and `..`.
pub open spec fn spec_file_name(path: Seq<char>) -> Option<Seq<char>> {
    let name = after_last_sep(path);
    if name.len() == 0 || name == "."@ || name == ".."@ {
        None
    } else {
        Some(name)
    }
}

/// `name` with its extension stripped: everything before the last `.`,
/// unless the only `.` is the leading character (a dotfile has no
/// extension) or there is none at all, in which case `name` is unchanged.
pub open spec fn spec_stem(name: Seq<char>) -> Seq<char>
    decreases name.len(),
{
    if name.len() <= 1 {
        name
    } else if name.last() == '.' {
        name.drop_last()
    } else {
        let s = spec_stem(name.drop_last());
        if s == name.drop_last() {
            name
        } else {
            s
        }
    }
}

/// The stem of `path`'s file name, if a file name is extractable.
pub open spec fn spec_resource_stem(path: Seq<char>) -> Option<Seq<char>> {
    match spec_file_name(path) {
        Some(name) => Some(spec_stem(name)),
        None => None,
    }
}

/// A name without a `.` past its first character is its own stem.
proof fn lemma_stem_no_dot(name: Seq<char>)
    requires
        forall|i: int| 1 <= i < name.len() ==> name[i] != '.',
    ensures
        spec_stem(name) == name,
    decreases name.len(),
{
    if name.len() > 1 {
        assert(name.last() != '.');
        assert(forall|i: int| 1 <= i < name.drop_last().len() ==> name.drop_last()[i] != '.');
        lemma_stem_no_dot(name.drop_last());
    }
}

/// If the last `.` of `name` stands at `p >= 1`, the stem is the text
/// before it.
proof fn lemma_stem_last_dot(name: Seq<char>, p: int)
    requires
        1 <= p < name.len(),
        name[p] == '.',
        forall|j: int| p < j < name.len() ==> name[j] != '.',
    ensures
        spec_stem(name) == name.subrange(0, p),
    decreases name.len(),
{
    if p == name.len() - 1 {
        assert(name.last() == '.');
        assert(name.drop_last() =~= name.subrange(0, p));
    } else {
        assert(name.last() != '.');
        let d = name.drop_last();
        assert(d[p] == '.');
        assert(forall|j: int| p < j < d.len() ==> d[j] != '.');
        lemma_stem_last_dot(d, p);
        assert(d.subrange(0, p) =~= name.subrange(0, p));
        assert(spec_stem(d).len() == p);
        assert(spec_stem(d) != d);
    }
}

/// Joins `dir` with the relative component `name`, inserting a `\` unless
/// `dir` already ends in a separator.
pub fn join_path(dir: &str, name: &str) -> (r: String)
    ensures
        r@ == spec_join(dir@, name@),
{
    let n = dir.unicode_len();
    let mut r = dir.to_owned();
    if n == 0 || !is_sep_exec(dir.get_char(n - 1)) {
        r.append("\\");
    }
    r.append(name);
    r
}

/// Executable twin of [`is_sep`].
fn is_sep_exec(c: char) -> (r: bool)
    ensures
        r == is_sep(c),
{
    c == '\\' || c == '/'
}

/// Extracts the final file-name component of `path`, per [`spec_file_name`].
pub fn file_name_of(path: &str) -> (r: Option<String>)
    ensures
        r.deep_view() == spec_file_name(path@),
{
    let n = path.unicode_len();
    let mut start: usize = 0;
    let mut i: usize = 0;
    while i < n
        invariant
            0 <= start <= i <= n,
            n == path@.len(),
            after_last_sep(path@.take(i as int)) =~= path@.subrange(start as int, i as int),
        decreases n - i,
    {
        let c = path.get_char(i);
        proof {
            assert(path@.take(i + 1).drop_last() =~= path@.take(i as int));
            assert(path@.take(i + 1).last() == c);
        }
        if is_sep_exec(c) {
            start = i + 1;
            proof {
                assert(after_last_sep(path@.take(i + 1)) =~= path@.subrange(
                    start as int,
                    i + 1,
                ));
            }
        } else {
            proof {
                assert(after_last_sep(path@.take(i + 1)) =~= path@.subrange(
                    start as int,
                    i + 1,
                ));
            }
        }
        i = i + 1;
    }
    proof {
        assert(path@.take(n as int) =~= path@);
        reveal_strlit(".");
        reveal_strlit("..");
    }
    let len = n - start;
    if len == 0 {
        return None;
    }
    if len == 1 && path.get_char(start) == '.' {
        proof {
            assert(after_last_sep(path@) =~= "."@);
        }
        return None;
    }
    if len == 2 && path.get_char(start) == '.' && path.get_char(start + 1) == '.' {
        proof {
            assert(after_last_sep(path@) =~= ".."@);
        }
        return None;
    }
    proof {
        reveal_strlit(".");
        reveal_strlit("..");
        assert(after_last_sep(path@) == path@.subrange(start as int, n as int));
        assert(after_last_sep(path@).len() > 0);
        if after_last_sep(path@) == "."@ {
            assert(after_last_sep(path@).len() == 1);
            assert(path@.subrange(start as int, n as int)[0] == path@[start as int]);
            assert(path@[start as int] == '.');
            assert(false);
        }
        if after_last_sep(path@) == ".."@ {
            assert(after_last_sep(path@).len() == 2);
            assert(path@.subrange(start as int, n as int)[0] == path@[start as int]);
            assert(path@.subrange(start as int, n as int)[1] == path@[start + 1]);
            assert(path@[start as int] == '.' && path@[start + 1] == '.');
            assert(false);
        }
    }
    Some(path.substring_char(start, n).to_owned())
}

/// Strips the extension of the file name `name`, per [`spec_stem`].
pub fn stem_of(name: &str) -> (r: String)
    ensures
        r@ == spec_stem(name@),
{
    let n = name.unicode_len();
    let mut dot: Option<usize> = None;
    let mut i: usize = 1;
    while i < n
        invariant
            1 <= i,
            n == name@.len(),
            i <= n || n <= 1,
            match dot {
                None => forall|j: int| 1 <= j < i ==> name@[j] != '.',
                Some(p) => 1 <= p < i <= n && name@[p as int] == '.' && (forall|j: int|
                    p < j < i ==> name@[j] != '.'),
            },
        decreases n - i,
    {
        if name.get_char(i) == '.' {
            dot = Some(i);
        }
        i = i + 1;
    }
    match dot {
        Some(p) => {
            proof {
                lemma_stem_last_dot(name@, p as int);
            }
            name.substring_char(0, p).to_owned()
        },
        None => {
            proof {
                lemma_stem_no_dot(name@);
            }
            name.to_owned()
        },
    }
}

/// The stem of `path`'s file name, per [`spec_resource_stem`].
pub fn resource_stem(path: &str) -> (r: Option<String>)
    ensures
        r.deep_view() == spec_resource_stem(path@),
{
    match file_name_of(path) {
        Some(name) => Some(stem_of(name.as_str())),
        None => None,
    }
}

} // verus!
