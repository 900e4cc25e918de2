//! Paths, held as text. Joining and the absolute-path test follow the Unix
//! rules of `std::path`; taking a path apart is left to `std::path` itself.
use vstd::prelude::*;

use crate::text::push_char;

verus! {

/// A path is absolute when it starts at the root.
pub open spec fn is_absolute_spec(p: Seq<char>) -> bool {
    p.len() > 0 && p[0] == '/'
}

/// `base` joined with `rest` as `Path::join` does it on Unix: an absolute
/// `rest` replaces `base`; otherwise a separator is put between them unless
/// `base` is empty or already ends in one.
pub open spec fn join_spec(base: Seq<char>, rest: Seq<char>) -> Seq<char> {
    if is_absolute_spec(rest) {
        rest
    } else if base.len() == 0 || base.last() == '/' {
        base + rest
    } else {
        base.push('/') + rest
    }
}

/// Whether the path starts at the root.
pub fn is_absolute(p: &str) -> (b: bool)
    ensures
        b == is_absolute_spec(p@),
{
    p.unicode_len() > 0 && p.get_char(0) == '/'
}

/// `base` joined with `rest`.
pub fn join(base: &str, rest: &str) -> (out: String)
    ensures
        out@ == join_spec(base@, rest@),
{
    if is_absolute(rest) {
        return String::from_str(rest);
    }
    let mut out = String::from_str(base);
    let n = base.unicode_len();
    if n > 0 && base.get_char(n - 1) != '/' {
        push_char(&mut out, '/');
    }
    out.append(rest);
    out
}

/// The path without its final component, as `Path::parent` gives it.
pub uninterp spec fn parent_spec(p: Seq<char>) -> Option<Seq<char>>;

/// The final component of the path, as `Path::file_name` gives it.
pub uninterp spec fn file_name_spec(p: Seq<char>) -> Option<Seq<char>>;

/// The position of the last `.` in `name` before position `upto`, or -1.
pub open spec fn last_dot(name: Seq<char>, upto: int) -> int
    decreases upto,
{
    if upto <= 0 {
        -1
    } else if name[upto - 1] == '.' {
        upto - 1
    } else {
        last_dot(name, upto - 1)
    }
}

/// The extension of the final component, as `Path::extension` documents it:
/// nothing when there is no file name, no `.` in it, or only a leading one;
/// otherwise what follows the last `.`.
pub open spec fn extension_spec(p: Seq<char>) -> Option<Seq<char>> {
    match file_name_spec(p) {
        None => None,
        Some(name) => {
            let d = last_dot(name, name.len() as int);
            if d <= 0 {
                None
            } else {
                Some(name.skip(d + 1))
            }
        },
    }
}

/// The final component without its extension, as `Path::file_stem`
/// documents it: the whole file name when it has no `.` or only a leading
/// one; otherwise what comes before the last `.`.
pub open spec fn file_stem_spec(p: Seq<char>) -> Option<Seq<char>> {
    match file_name_spec(p) {
        None => None,
        Some(name) => {
            let d = last_dot(name, name.len() as int);
            if d <= 0 {
                Some(name)
            } else {
                Some(name.take(d))
            }
        },
    }
}

/// Whether two paths are equal as `Path`s compare them: component by
/// component, so repeated and trailing separators do not count.
pub uninterp spec fn same_path_spec(a: Seq<char>, b: Seq<char>) -> bool;

/// `Path`'s `==`: whether `a` and `b` have the same components. Only that
/// the answer is a function of the two paths is claimed.
#[verifier::external_body]
pub(crate) fn same_path(a: &str, b: &str) -> (r: bool)
    ensures
        r == same_path_spec(a@, b@),
{
    std::path::Path::new(a) == std::path::Path::new(b)
}

/// `Path::parent`: the path without its final component, or `None` for a
/// path that ends in the root or is empty. Only that the result is a function
/// of the path is claimed.
#[verifier::external_body]
pub(crate) fn parent(p: &str) -> (r: Option<String>)
    ensures
        match r {
            Some(s) => parent_spec(p@) == Some(s@),
            None => parent_spec(p@) is None,
        },
{
    std::path::Path::new(p).parent().map(|q| q.to_string_lossy().into_owned())
}

/// `Path::file_name`: the final component, or `None` when the path ends in
/// `..` or is the root. Only that the result is a function of the path is
/// claimed.
#[verifier::external_body]
pub(crate) fn file_name(p: &str) -> (r: Option<String>)
    ensures
        match r {
            Some(s) => file_name_spec(p@) == Some(s@),
            None => file_name_spec(p@) is None,
        },
{
    std::path::Path::new(p).file_name().map(|q| q.to_string_lossy().into_owned())
}

/// `Path::extension`: what follows the last `.` of the final component, when
/// there is such a dot that does not start the name.
#[verifier::external_body]
pub(crate) fn extension(p: &str) -> (r: Option<String>)
    ensures
        match r {
            Some(s) => extension_spec(p@) == Some(s@),
            None => extension_spec(p@) is None,
        },
{
    std::path::Path::new(p).extension().map(|q| q.to_string_lossy().into_owned())
}

/// `Path::file_stem`: the final component without its extension.
#[verifier::external_body]
pub(crate) fn file_stem(p: &str) -> (r: Option<String>)
    ensures
        match r {
            Some(s) => file_stem_spec(p@) == Some(s@),
            None => file_stem_spec(p@) is None,
        },
{
    std::path::Path::new(p).file_stem().map(|q| q.to_string_lossy().into_owned())
}

} // verus!
