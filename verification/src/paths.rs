//! Path arithmetic on strings: the parent of a path and its final component.
//!
//! Both are computed by `std::path::Path`, whose parsing rules are taken on
//! trust and appear in contracts under the names [`parent_of`] and
//! [`file_name_of`]. The rules are lexical: they read the text of the path
//! and never the filesystem.

use vstd::prelude::*;

verus! {

/// What `std::path::Path::parent` returns for a path, as text: the path
/// without its final component, or `None` where the path ends in a root or is
/// empty.
pub uninterp spec fn parent_of(path: Seq<char>) -> Option<Seq<char>>;

/// What `std::path::Path::file_name` returns for a path, as text: the final
/// component where it is an ordinary name, `None` otherwise.
pub uninterp spec fn file_name_of(path: Seq<char>) -> Option<Seq<char>>;

/// The text held by an optional string.
pub open spec fn text_of(s: Option<String>) -> Option<Seq<char>> {
    match s {
        Some(t) => Some(t@),
        None => None,
    }
}

/// The directory that the parent link of `cwd` leads to: the parent of `cwd`,
/// or `cwd` itself where it has none.
pub open spec fn parent_or_self(cwd: Seq<char>) -> Seq<char> {
    match parent_of(cwd) {
        Some(p) => p,
        None => cwd,
    }
}

/// Calls `std::path::Path::parent` on `path` and hands the result back as an
/// owned string. Trusted: the result is the one named [`parent_of`]; nothing
/// more is claimed of it.
#[verifier::external_body]
pub(crate) fn parent(path: &str) -> (r: Option<String>)
    ensures
        text_of(r) == parent_of(path@),
{
    std::path::Path::new(path).parent().and_then(|p| p.to_str()).map(|p| p.to_string())
}

/// Calls `std::path::Path::file_name` on `path` and hands the result back as
/// an owned string. Trusted: the result is the one named [`file_name_of`], and
/// it is never `..`, since the call returns `None` for a path that ends in
/// `..`.
#[verifier::external_body]
pub(crate) fn file_name(path: &str) -> (r: Option<String>)
    ensures
        text_of(r) == file_name_of(path@),
        r matches Some(n) ==> n@ != ".."@,
{
    std::path::Path::new(path).file_name().and_then(|n| n.to_str()).map(|n| n.to_string())
}

/// The directory one level up from `cwd`; `cwd` itself where it has no
/// parent, as at the filesystem root.
pub fn parent_dir(cwd: &str) -> (r: String)
    ensures
        r@ == parent_or_self(cwd@),
{
    match parent(cwd) {
        Some(p) => p,
        None => cwd.to_string(),
    }
}

} // verus!
