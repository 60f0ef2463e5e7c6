//! File system paths (Unix, `/`-separated) as the cache, storage and CDR
//! logic builds them: joining a component onto a path, and a path's
//! extension.
use crate::text::{chars_to_string, str_to_chars};
use vstd::prelude::*;
use vstd::string::StringExecFns;

verus! {

broadcast use vstd::string::group_string_axioms;

/// `comp` joined onto `base` as `Path::join` does on Unix: an absolute
/// `comp` replaces `base`; otherwise a `/` is put between them unless `base`
/// is empty or already ends with one.
pub open spec fn path_join(base: Seq<char>, comp: Seq<char>) -> Seq<char> {
    if comp.len() > 0 && comp[0] == '/' {
        comp
    } else if base.len() > 0 && base.last() != '/' {
        base + seq!['/'] + comp
    } else {
        base + comp
    }
}

/// Joins `comp` onto `base` (see `path_join`).
pub fn join_path(base: &str, comp: &str) -> (r: String)
    ensures
        r@ == path_join(base@, comp@),
{
    let b = str_to_chars(base);
    let c = str_to_chars(comp);
    if c.len() > 0 && c[0] == '/' {
        return String::from_str(comp);
    }
    let mut r = b;
    if r.len() > 0 && r[r.len() - 1] != '/' {
        r.push('/');
    }
    let mut c = c;
    r.append(&mut c);
    chars_to_string(r.as_slice())
}

/// Position of the last occurrence of `c` in `s`, if any.
pub open spec fn last_index_of(s: Seq<char>, c: char) -> Option<int>
    decreases s.len(),
{
    if s.len() == 0 {
        None
    } else if s.last() == c {
        Some(s.len() - 1)
    } else {
        last_index_of(s.drop_last(), c)
    }
}

/// The last component of `p` that names something (neither empty nor `.`),
/// as the path's components give it on Unix: separators are `/`, repeated
/// and trailing separators are ignored, and `.` components are left out.
pub open spec fn final_segment(p: Seq<char>) -> Option<Seq<char>>
    decreases p.len(),
{
    match last_index_of(p, '/') {
        None => if p.len() == 0 || p == seq!['.'] {
            None
        } else {
            Some(p)
        },
        Some(i) => if 0 <= i < p.len() {
            let seg = p.subrange(i + 1, p.len() as int);
            if seg.len() == 0 || seg == seq!['.'] {
                final_segment(p.subrange(0, i))
            } else {
                Some(seg)
            }
        } else {
            None
        },
    }
}

/// The file name of `p` as `Path::file_name` gives it: its final component,
/// unless there is none or it is `..`.
pub open spec fn file_name(p: Seq<char>) -> Option<Seq<char>> {
    match final_segment(p) {
        Some(n) => if n == seq!['.', '.'] {
            None
        } else {
            Some(n)
        },
        None => None,
    }
}

/// The extension of `p` as `Path::extension` gives it: the text after the
/// last `.` of the file name; none without a file name, without a `.`, or
/// when the only `.` begins the name.
pub open spec fn path_extension(p: Seq<char>) -> Option<Seq<char>> {
    match file_name(p) {
        Some(n) => match last_index_of(n, '.') {
            Some(i) => if i == 0 {
                None
            } else {
                Some(n.subrange(i + 1, n.len() as int))
            },
            None => None,
        },
        None => None,
    }
}

/// Calls `Path::new(p).extension()` and returns the extension as text.
/// Trusted: the contract claims the rule that std's documentation of
/// `Path::extension`, `Path::file_name` and `Path::components` gives, on
/// Unix (see `path_extension`).
#[verifier::external_body]
pub(crate) fn extension_of(p: &str) -> (r: Option<String>)
    ensures
        r.deep_view() == path_extension(p@),
{
    std::path::Path::new(p).extension().map(|e| e.to_string_lossy().to_string())
}

} // verus!
