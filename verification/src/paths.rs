//! Path arithmetic.
//!
//! A path is held as its text. What the standard library computes from a
//! path (its last component, its parent, whether one path lies under another)
//! is taken from the standard library; each such answer has a name here, and
//! the contracts of this crate speak of paths through those names.

use vstd::prelude::*;

verus! {

/// `rel` adjoined to `base`, as `Path::join` builds it.
pub uninterp spec fn path_join(base: Seq<char>, rel: Seq<char>) -> Seq<char>;

/// The last component of `path`, as `Path::file_name` gives it.
pub uninterp spec fn path_file_name(path: Seq<char>) -> Option<Seq<char>>;

/// The extension of the last component of `path`, as `Path::extension` gives it.
pub uninterp spec fn path_extension(path: Seq<char>) -> Option<Seq<char>>;

/// `path` without its last component, as `Path::parent` gives it.
pub uninterp spec fn path_parent(path: Seq<char>) -> Option<Seq<char>>;

/// Whether `base` is a prefix of `path` by whole components, as
/// `Path::starts_with` decides it.
pub uninterp spec fn path_starts_with(path: Seq<char>, base: Seq<char>) -> bool;

/// Whether two texts name the same path, as the equality of `Path` decides it.
pub uninterp spec fn path_equal(a: Seq<char>, b: Seq<char>) -> bool;

/// Joins `rel` onto `base`.
///
/// Trusted: stands for `Path::join`; the contract only gives its result a name.
#[verifier::external_body]
pub(crate) fn join(base: &str, rel: &str) -> (r: String)
    ensures
        r@ == path_join(base@, rel@),
{
    std::path::Path::new(base).join(rel).to_string_lossy().into_owned()
}

/// The last component of `path`, if it has one.
///
/// Trusted: stands for `Path::file_name`; the contract only gives its result
/// a name.
#[verifier::external_body]
pub(crate) fn file_name(path: &str) -> (r: Option<String>)
    ensures
        r is Some == path_file_name(path@) is Some,
        r matches Some(name) ==> name@ == path_file_name(path@)->0,
{
    match std::path::Path::new(path).file_name() {
        Some(name) => Some(name.to_string_lossy().into_owned()),
        None => None,
    }
}

/// The extension of the last component of `path`, if it has one.
///
/// Trusted: stands for `Path::extension`. The contract gives its result a
/// name, and says that a path with an extension has a last component: the
/// extension is taken from it.
#[verifier::external_body]
pub(crate) fn extension(path: &str) -> (r: Option<String>)
    ensures
        r is Some == path_extension(path@) is Some,
        r matches Some(ext) ==> ext@ == path_extension(path@)->0,
        r is Some ==> path_file_name(path@) is Some,
{
    match std::path::Path::new(path).extension() {
        Some(ext) => Some(ext.to_string_lossy().into_owned()),
        None => None,
    }
}

/// `path` without its last component, if it has one.
///
/// Trusted: stands for `Path::parent`; the contract only gives its result a
/// name.
#[verifier::external_body]
pub(crate) fn parent(path: &str) -> (r: Option<String>)
    ensures
        r is Some == path_parent(path@) is Some,
        r matches Some(dir) ==> dir@ == path_parent(path@)->0,
{
    match std::path::Path::new(path).parent() {
        Some(dir) => Some(dir.to_string_lossy().into_owned()),
        None => None,
    }
}

/// Whether `path` lies at or under `base`.
///
/// Trusted: stands for `Path::starts_with`; the contract only gives its
/// answer a name.
#[verifier::external_body]
pub(crate) fn starts_with(path: &str, base: &str) -> (r: bool)
    ensures
        r == path_starts_with(path@, base@),
{
    std::path::Path::new(path).starts_with(base)
}

/// Whether `a` and `b` name the same path.
///
/// Trusted: stands for the `==` of `Path`; the contract only gives its answer
/// a name.
#[verifier::external_body]
pub(crate) fn same_path(a: &str, b: &str) -> (r: bool)
    ensures
        r == path_equal(a@, b@),
{
    std::path::Path::new(a) == std::path::Path::new(b)
}

} // verus!
