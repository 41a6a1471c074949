//! Small file-system helpers.

use vstd::prelude::*;

verus! {

/// `true` if something exists at `path`.
///
/// Calls `std::path::Path::exists`. What it returns depends on the disk at the
/// moment of the call, so nothing is promised of the result.
#[verifier::external_body]
pub fn path_exists(path: &str) -> bool {
    std::path::Path::new(path).exists()
}

/// Names what `std::path::Path::parent` returns for a path (as a string).
pub uninterp spec fn spec_path_parent(path: Seq<char>) -> Option<Seq<char>>;

/// Calls `std::path::Path::parent`: the path without its final component,
/// `None` when the path ends in a root or is empty. The result is a function
/// of the path alone and is named, not described.
#[verifier::external_body]
fn path_parent(path: &str) -> (r: Option<String>)
    ensures
        r.deep_view() == spec_path_parent(path@),
{
    std::path::Path::new(path).parent().map(|p| p.to_string_lossy().into_owned())
}

/// The directory that must exist before a file can be written at `path`: its
/// parent, unless it has none or the parent is empty (a bare file name).
pub fn parent_to_create(path: &str) -> (r: Option<String>)
    ensures
        r.deep_view() == match spec_path_parent(path@) {
            Some(p) => if p.len() > 0 { Some(p) } else { None },
            None => None,
        },
{
    match path_parent(path) {
        Some(p) => if p.as_str().unicode_len() > 0 { Some(p) } else { None },
        None => None,
    }
}

} // verus!
