//! Path operations of the standard library, on paths held as strings.
//!
//! What these operations return is named, not restated: each result is a function of
//! the arguments alone on the platform the library is built for, and the contracts of
//! the library speak of the results by these names.

use vstd::prelude::*;

verus! {

/// The path that `std::path::Path::join` gives for `base` extended by `rel`.
pub uninterp spec fn joined(base: Seq<char>, rel: Seq<char>) -> Seq<char>;

/// The path that `std::path::Path::parent` gives for `path`, if it gives one.
pub uninterp spec fn parent_of(path: Seq<char>) -> Option<Seq<char>>;

/// The path that `std::path::Path::strip_prefix` gives for `path` with `base` taken
/// off its front, if `base` is a prefix of `path`.
pub uninterp spec fn stripped(path: Seq<char>, base: Seq<char>) -> Option<Seq<char>>;

/// Calls `std::path::Path::join`. Trusted: the result is the standard library's join
/// of the two paths, which this contract only names.
#[verifier::external_body]
pub(crate) fn join(base: &str, rel: &str) -> (path: String)
    ensures
        path@ == joined(base@, rel@),
{
    std::path::Path::new(base).join(rel).to_string_lossy().into_owned()
}

/// Calls `std::path::Path::parent`. Trusted: the result is the standard library's
/// parent of the path, or `None` where it has none; this contract only names it.
#[verifier::external_body]
pub(crate) fn parent(path: &str) -> (up: Option<String>)
    ensures
        up is Some == parent_of(path@) is Some,
        up is Some ==> up->Some_0@ == parent_of(path@)->Some_0,
{
    match std::path::Path::new(path).parent() {
        Some(up) => Some(up.to_string_lossy().into_owned()),
        None => None,
    }
}

/// Calls `std::path::Path::strip_prefix`. Trusted: the result is the remainder that
/// the standard library finds behind `base`, or `None` where it reports that `base`
/// is no prefix of `path`; this contract only names it.
#[verifier::external_body]
pub(crate) fn strip_prefix(path: &str, base: &str) -> (rest: Option<String>)
    ensures
        rest is Some == stripped(path@, base@) is Some,
        rest is Some ==> rest->Some_0@ == stripped(path@, base@)->Some_0,
{
    match std::path::Path::new(path).strip_prefix(base) {
        Ok(rest) => Some(rest.to_string_lossy().into_owned()),
        Err(_) => None,
    }
}

} // verus!
