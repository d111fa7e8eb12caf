//! Paths as text, joined the way `PathBuf::push` documents it for unix
//! paths.

use vstd::prelude::*;
use crate::text::{push_char, push_str, to_owned_string};

verus! {

/// `seg` appended to `base`: an absolute `seg` replaces `base`; otherwise a
/// `/` is put between them unless `base` is empty or already ends in one
pub open spec fn spec_join_path(base: Seq<char>, seg: Seq<char>) -> Seq<char> {
    if seg.len() > 0 && seg[0] == '/' {
        seg
    } else if base.len() == 0 || base.last() == '/' {
        base + seg
    } else {
        base.push('/') + seg
    }
}

/// joins a path segment onto a base path
pub fn join_path(base: &str, seg: &str) -> (rtn: String)
    ensures
        rtn@ == spec_join_path(base@, seg@),
{
    let seg_len = seg.unicode_len();
    if seg_len > 0 && seg.get_char(0) == '/' {
        let mut rtn = String::new();
        push_str(&mut rtn, seg);
        assert(rtn@ =~= seg@);
        return rtn;
    }
    let base_len = base.unicode_len();
    let mut rtn = String::new();
    push_str(&mut rtn, base);
    if !(base_len == 0 || base.get_char(base_len - 1) == '/') {
        push_char(&mut rtn, '/');
    }
    push_str(&mut rtn, seg);
    assert(rtn@ =~= spec_join_path(base@, seg@));
    rtn
}

/// what `std::path::Path::parent` returns for a path given as text
pub uninterp spec fn spec_path_parent(p: Seq<char>) -> Option<Seq<char>>;

/// Calls `std::path::Path::parent` on the path and turns the parent back
/// into text. The result is named `spec_path_parent` of the path; std
/// documents `None` for an empty path or one that ends in a root, which is
/// not stated here.
#[verifier::external_body]
pub(crate) fn path_parent(p: &str) -> (rtn: Option<String>)
    ensures
        match rtn {
            Some(s) => spec_path_parent(p@) == Some(s@),
            None => spec_path_parent(p@) is None,
        },
{
    std::path::Path::new(p).parent().map(|q| q.to_string_lossy().into_owned())
}

/// what `std::path::Path::file_name` returns for a path given as text
pub uninterp spec fn spec_file_name(p: Seq<char>) -> Option<Seq<char>>;

/// Calls `std::path::Path::file_name` on the path and turns the name back
/// into text. The result is named `spec_file_name` of the path; std
/// documents `None` for a path that ends in `..` or has no final component,
/// which is not stated here.
#[verifier::external_body]
pub(crate) fn path_file_name(p: &str) -> (rtn: Option<String>)
    ensures
        match rtn {
            Some(s) => spec_file_name(p@) == Some(s@),
            None => spec_file_name(p@) is None,
        },
{
    std::path::Path::new(p).file_name().map(|n| n.to_string_lossy().into_owned())
}

/// the path with `.` and an extension added to its file name, as
/// `PathBuf::add_extension` does it: the file name is replaced under the
/// parent; `None` when the path has no file name
pub open spec fn spec_add_extension(p: Seq<char>, ext: Seq<char>) -> Option<Seq<char>> {
    match spec_file_name(p) {
        None => None,
        Some(name) => {
            let base = match spec_path_parent(p) {
                Some(parent) => parent,
                None => p,
            };
            Some(spec_join_path(base, name + seq!['.'] + ext))
        },
    }
}

/// adds an extension to the file name of a path
pub fn add_extension(p: &str, ext: &str) -> (rtn: Option<String>)
    ensures
        match rtn {
            Some(s) => spec_add_extension(p@, ext@) == Some(s@),
            None => spec_add_extension(p@, ext@) is None,
        },
{
    match path_file_name(p) {
        None => None,
        Some(name) => {
            let mut new_name = name;
            push_char(&mut new_name, '.');
            push_str(&mut new_name, ext);
            let base = match path_parent(p) {
                Some(parent) => parent,
                None => to_owned_string(p),
            };
            Some(join_path(base.as_str(), new_name.as_str()))
        },
    }
}

} // verus!
