//! Paths as the engine sees them: percent-decoding of what the protocol
//! layer hands over, and the parent and the final component of a path.
//!
//! The three functions here are calls into code that is not verified; their
//! contracts are taken on trust. Each result is a function of the argument
//! alone and is given a name, so that the contracts of the filesystem can
//! say exactly which path they look up.

use vstd::prelude::*;

verus! {

/// What percent-decoding makes of `input`, read as UTF-8: `None` where the
/// decoded bytes are not well-formed UTF-8.
pub uninterp spec fn percent_decoded(input: Seq<char>) -> Option<Seq<char>>;

/// The path without its final component, as `std::path::Path::parent` gives
/// it: `None` where the path ends in a root or is empty.
pub uninterp spec fn path_parent(path: Seq<char>) -> Option<Seq<char>>;

/// The final component of the path, as `std::path::Path::file_name` gives
/// it: `None` where the path has none.
pub uninterp spec fn path_file_name(path: Seq<char>) -> Option<Seq<char>>;

/// Calls `percent_encoding::percent_decode_str` and then `decode_utf8` on
/// the result. Trusted: the outcome is the named decoding of `input`, `None`
/// exactly where `decode_utf8` reports an error.
#[verifier::external_body]
pub(crate) fn percent_decode(input: &str) -> (r: Option<String>)
    ensures
        match r {
            Some(s) => percent_decoded(input@) == Some(s@),
            None => percent_decoded(input@) is None,
        },
{
    match percent_encoding::percent_decode_str(input).decode_utf8() {
        Ok(s) => Some(s.into_owned()),
        Err(_) => None,
    }
}

/// Calls `std::path::Path::parent`. Trusted: the outcome is the named parent
/// of `path`.
#[verifier::external_body]
pub(crate) fn parent_of(path: &str) -> (r: Option<String>)
    ensures
        match r {
            Some(s) => path_parent(path@) == Some(s@),
            None => path_parent(path@) is None,
        },
{
    match std::path::Path::new(path).parent() {
        Some(p) => Some(p.to_string_lossy().into_owned()),
        None => None,
    }
}

/// Calls `std::path::Path::file_name`. Trusted: the outcome is the named
/// final component of `path`.
#[verifier::external_body]
pub(crate) fn file_name_of(path: &str) -> (r: Option<String>)
    ensures
        match r {
            Some(s) => path_file_name(path@) == Some(s@),
            None => path_file_name(path@) is None,
        },
{
    match std::path::Path::new(path).file_name() {
        Some(n) => Some(n.to_string_lossy().into_owned()),
        None => None,
    }
}

} // verus!
