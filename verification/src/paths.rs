//! Path arithmetic. Paths are handled as text and taken apart and put together by the
//! standard library, whose answers are named here: they depend on the text alone, on a
//! given platform.

use vstd::prelude::*;

verus! {

/// The final component of a path, as `std::path::Path::file_name` gives it.
pub uninterp spec fn file_name_of(path: Seq<char>) -> Option<Seq<char>>;

/// A path without its final component, as `std::path::Path::parent` gives it.
pub uninterp spec fn parent_of(path: Seq<char>) -> Option<Seq<char>>;

/// `path` relative to `base`, as `std::path::Path::strip_prefix` gives it; `None` where
/// `base` is no prefix of `path`.
pub uninterp spec fn stripped_of(path: Seq<char>, base: Seq<char>) -> Option<Seq<char>>;

/// `rest` adjoined to `base`, as `std::path::Path::join` gives it.
pub uninterp spec fn joined(base: Seq<char>, rest: Seq<char>) -> Seq<char>;

/// `std::path::Path::file_name` of `path`, as text.
#[verifier::external_body]
pub(crate) fn file_name(path: &str) -> (r: Option<String>)
    ensures
        r is Some <==> file_name_of(path@) is Some,
        r matches Some(name) ==> file_name_of(path@) == Some(name@),
{
    match std::path::Path::new(path).file_name() {
        Some(name) => Some(name.to_string_lossy().into_owned()),
        None => None,
    }
}

/// `std::path::Path::parent` of `path`, as text.
#[verifier::external_body]
pub(crate) fn parent(path: &str) -> (r: Option<String>)
    ensures
        r is Some <==> parent_of(path@) is Some,
        r matches Some(dir) ==> parent_of(path@) == Some(dir@),
{
    match std::path::Path::new(path).parent() {
        Some(dir) => Some(dir.to_string_lossy().into_owned()),
        None => None,
    }
}

/// `std::path::Path::strip_prefix` of `path` by `base`, as text.
#[verifier::external_body]
pub(crate) fn strip_prefix(path: &str, base: &str) -> (r: Result<
    String,
    std::path::StripPrefixError,
>)
    ensures
        r is Ok <==> stripped_of(path@, base@) is Some,
        r matches Ok(rest) ==> stripped_of(path@, base@) == Some(rest@),
{
    match std::path::Path::new(path).strip_prefix(base) {
        Ok(rest) => Ok(rest.to_string_lossy().into_owned()),
        Err(err) => Err(err),
    }
}

/// `std::path::Path::join` of `base` and `rest`, as text.
#[verifier::external_body]
pub(crate) fn join(base: &str, rest: &str) -> (r: String)
    ensures
        r@ == joined(base@, rest@),
{
    std::path::Path::new(base).join(rest).to_string_lossy().into_owned()
}

} // verus!
