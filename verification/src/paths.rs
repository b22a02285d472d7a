//! What std tells of a path: its last component and its extension.

use vstd::prelude::*;
use vstd::string::StringExecFns;
use crate::text::{same, split, split_on, to_chars, views};

verus! {

/// The extension of the last component of a path, as std's `Path` tells
/// it on Unix.
pub uninterp spec fn path_extension(path: Seq<char>) -> Option<Seq<char>>;

/// The last component of a path, as std's `Path` tells it on Unix.
pub uninterp spec fn path_file_name(path: Seq<char>) -> Option<Seq<char>>;

/// Calls std's `Path::extension` on `path`. Nothing is proved of it: the
/// contract gives the result its name and claims no more than that the same
/// path always has the same extension.
#[verifier::external_body]
pub(crate) fn extension_of(path: &str) -> (r: Option<String>)
    ensures
        match r {
            Some(e) => path_extension(path@) == Some(e@),
            None => path_extension(path@) is None,
        },
{
    std::path::Path::new(path).extension().and_then(|e| e.to_str()).map(|e| e.to_string())
}

/// Calls std's `Path::file_name` on `path`. Nothing is proved of it: the
/// contract gives the result its name and claims no more than that the same
/// path always has the same last component.
#[verifier::external_body]
pub(crate) fn file_name_of(path: &str) -> (r: Option<String>)
    ensures
        match r {
            Some(n) => path_file_name(path@) == Some(n@),
            None => path_file_name(path@) is None,
        },
{
    std::path::Path::new(path).file_name().and_then(|n| n.to_str()).map(|n| n.to_string())
}

/// The path of `name` under the directory `base`: a name that starts at the
/// root stands for itself, and so does any name under an empty base; else
/// one slash separates the two.
pub open spec fn joined_path(base: Seq<char>, name: Seq<char>) -> Seq<char> {
    if name.len() > 0 && name[0] == '/' {
        name
    } else if base.len() == 0 {
        name
    } else if base.last() == '/' {
        base + name
    } else {
        base + "/"@ + name
    }
}

/// Executable form of [`joined_path`].
pub fn join_path(base: &str, name: &str) -> (r: String)
    ensures
        r@ == joined_path(base@, name@),
{
    let n = to_chars(name);
    let b = to_chars(base);
    if n.len() > 0 && n[0] == '/' {
        return String::from_str(name);
    }
    if b.len() == 0 {
        return String::from_str(name);
    }
    let mut r = String::from_str(base);
    if b[b.len() - 1] != '/' {
        r.append("/");
    }
    r.append(name);
    r
}

/// The user's directory of the given kind: what the environment names for
/// it, else `fallback` under the home directory, which is `.` where the
/// environment names none.
pub open spec fn base_dir(named: Option<Seq<char>>, home: Option<Seq<char>>, fallback: Seq<char>) -> Seq<
    char,
> {
    match named {
        Some(d) => d,
        None => (match home {
            Some(h) => h,
            None => "."@,
        }) + fallback,
    }
}

/// Executable form of [`base_dir`]; `fallback` starts with a slash.
pub fn resolve_base_dir(named: Option<&str>, home: Option<&str>, fallback: &str) -> (r: String)
    ensures
        r@ == base_dir(
            match named {
                Some(d) => Some(d@),
                None => None,
            },
            match home {
                Some(h) => Some(h@),
                None => None,
            },
            fallback@,
        ),
{
    match named {
        Some(d) => String::from_str(d),
        None => {
            let mut r = match home {
                Some(h) => String::from_str(h),
                None => String::from_str("."),
            };
            r.append(fallback);
            r
        },
    }
}

/// The characters of an optional string slice.
pub open spec fn opt_str(o: Option<&str>) -> Option<Seq<char>> {
    match o {
        Some(s) => Some(s@),
        None => None,
    }
}

/// Whether the search path `path_var` names the directory `dir`: whether
/// one of its parts between colons is `dir`.
pub open spec fn on_path(path_var: Option<Seq<char>>, dir: Seq<char>) -> bool {
    match path_var {
        Some(p) => split(p, ':').contains(dir),
        None => false,
    }
}

/// Whether the search path names the directory `dir`.
pub fn path_contains(path_var: Option<&str>, dir: &str) -> (b: bool)
    ensures
        b == on_path(
            match path_var {
                Some(p) => Some(p@),
                None => None,
            },
            dir@,
        ),
{
    match path_var {
        None => false,
        Some(p) => {
            let parts = split_on(to_chars(p).as_slice(), ':');
            let d = to_chars(dir);
            let mut i: usize = 0;
            while i < parts.len()
                invariant
                    i <= parts.len(),
                    d@ == dir@,
                    path_var == Some(p),
                    views(parts@) == split(p@, ':'),
                    forall|k: int| 0 <= k < i ==> views(parts@)[k] != dir@,
                decreases parts.len() - i,
            {
                assert(views(parts@)[i as int] == parts@[i as int]@);
                if same(parts[i].as_slice(), d.as_slice()) {
                    assert(split(p@, ':')[i as int] == dir@);
                    return true;
                }
                i += 1;
            }
            false
        },
    }
}

} // verus!
