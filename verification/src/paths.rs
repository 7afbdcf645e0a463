//! File-system path operations, computed by `std::path` on path strings.
use vstd::prelude::*;

verus! {

/// What `Path::parent` gives for a path.
pub uninterp spec fn std_path_parent(p: Seq<char>) -> Option<Seq<char>>;

/// What `Path::file_name` gives for a path.
pub uninterp spec fn std_path_file_name(p: Seq<char>) -> Option<Seq<char>>;

/// What `Path::join` gives for a base path and a further path.
pub uninterp spec fn std_path_join(base: Seq<char>, rest: Seq<char>) -> Seq<char>;

/// What `Path::starts_with` gives: whether `base` is a leading run of whole
/// components of `p`.
pub uninterp spec fn std_path_starts_with(p: Seq<char>, base: Seq<char>) -> bool;

/// What `Path::eq` gives: whether two paths have the same components.
pub uninterp spec fn std_path_eq(a: Seq<char>, b: Seq<char>) -> bool;

/// What `Path::extension` gives for a path.
pub uninterp spec fn std_path_extension(p: Seq<char>) -> Option<Seq<char>>;

/// `Path::eq`: whether two paths have the same components.
/// Its result is named `std_path_eq`; nothing more is claimed of it.
#[verifier::external_body]
pub(crate) fn path_eq(a: &str, b: &str) -> (res: bool)
    ensures
        res == std_path_eq(a@, b@),
{
    std::path::Path::new(a) == std::path::Path::new(b)
}

/// `Path::parent`: the path without its last component, if it has one.
/// Its result is named `std_path_parent`; nothing more is claimed of it.
#[verifier::external_body]
pub(crate) fn path_parent(p: &str) -> (res: Option<String>)
    ensures
        match res {
            Some(q) => std_path_parent(p@) == Some(q@),
            None => std_path_parent(p@) is None,
        },
{
    match std::path::Path::new(p).parent() {
        Some(q) => Some(q.to_string_lossy().into_owned()),
        None => None,
    }
}

/// `Path::file_name`: the last component of a path, if it names one.
/// Its result is named `std_path_file_name`; nothing more is claimed of it.
#[verifier::external_body]
pub(crate) fn path_file_name(p: &str) -> (res: Option<String>)
    ensures
        match res {
            Some(q) => std_path_file_name(p@) == Some(q@),
            None => std_path_file_name(p@) is None,
        },
{
    match std::path::Path::new(p).file_name() {
        Some(q) => Some(q.to_string_lossy().into_owned()),
        None => None,
    }
}

/// `Path::join`: `rest` appended to `base` as further components (or `rest`
/// itself when it is absolute). Its result is named `std_path_join`.
#[verifier::external_body]
pub(crate) fn path_join(base: &str, rest: &str) -> (res: String)
    ensures
        res@ == std_path_join(base@, rest@),
{
    std::path::Path::new(base).join(rest).to_string_lossy().into_owned()
}

/// `Path::starts_with`: whether `base` is a prefix of `p` made of whole
/// components. Its result is named `std_path_starts_with`.
#[verifier::external_body]
pub(crate) fn path_starts_with(p: &str, base: &str) -> (res: bool)
    ensures
        res == std_path_starts_with(p@, base@),
{
    std::path::Path::new(p).starts_with(base)
}

/// `Path::extension`: the part of the file name after its last `.`, if
/// it has one. Its result is named `std_path_extension`.
#[verifier::external_body]
pub(crate) fn path_extension(p: &str) -> (res: Option<String>)
    ensures
        match res {
            Some(e) => std_path_extension(p@) == Some(e@),
            None => std_path_extension(p@) is None,
        },
{
    match std::path::Path::new(p).extension() {
        Some(e) => Some(e.to_string_lossy().into_owned()),
        None => None,
    }
}

} // verus!
