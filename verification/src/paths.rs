//! Path operations of `std::path`, used on paths held as strings.

use vstd::prelude::*;
use crate::text::opt_view;

verus! {

#[verifier::external_type_specification]
#[verifier::external_body]
pub struct ExPathBuf(std::path::PathBuf);

/// The owned path that `PathBuf::from` makes of a string.
pub uninterp spec fn path_buf_of(p: Seq<char>) -> std::path::PathBuf;

/// `PathBuf::from` a path given as a string.
///
/// Trusted: the result is `path_buf_of` the input.
#[verifier::external_body]
pub fn path_buf(p: &str) -> (r: std::path::PathBuf)
    ensures
        r == path_buf_of(p@),
{
    std::path::PathBuf::from(p)
}

/// The stem of a path as `Path::file_stem` computes it: the final component
/// without its last extension, if the path has a final component.
pub uninterp spec fn path_file_stem(p: Seq<char>) -> Option<Seq<char>>;

/// The extension of a path as `Path::extension` computes it.
pub uninterp spec fn path_extension(p: Seq<char>) -> Option<Seq<char>>;

/// The path that `Path::join` builds from a base and a relative part.
pub uninterp spec fn path_join(base: Seq<char>, rest: Seq<char>) -> Seq<char>;

/// `Path::file_stem` of a path given as a string.
///
/// Trusted: the result is `path_file_stem` of the input; a stem taken from a
/// `&str` path is valid UTF-8, so the lossy conversion keeps it unchanged.
#[verifier::external_body]
pub fn file_stem(p: &str) -> (r: Option<String>)
    ensures
        opt_view(r) == path_file_stem(p@),
{
    match std::path::Path::new(p).file_stem() {
        Some(s) => Some(s.to_string_lossy().to_string()),
        None => None,
    }
}

/// `Path::extension` of a path given as a string.
///
/// Trusted: the result is `path_extension` of the input; an extension taken
/// from a `&str` path is valid UTF-8, so `to_str` never fails on it.
#[verifier::external_body]
pub fn extension(p: &str) -> (r: Option<String>)
    ensures
        opt_view(r) == path_extension(p@),
{
    match std::path::Path::new(p).extension() {
        Some(s) => Some(s.to_string_lossy().to_string()),
        None => None,
    }
}

/// `Path::join` of two paths given as strings.
///
/// Trusted: the result is `path_join` of the inputs; joining two UTF-8 paths
/// gives a UTF-8 path, so the lossy conversion keeps it unchanged.
#[verifier::external_body]
pub fn join(base: &str, rest: &str) -> (r: String)
    ensures
        r@ == path_join(base@, rest@),
{
    std::path::Path::new(base).join(rest).to_string_lossy().to_string()
}

/// `Path::exists` of a path given as a string.
///
/// Trusted, with nothing claimed: the answer depends on what is on disk at
/// the moment of the call.
#[verifier::external_body]
pub fn path_exists(p: &str) -> bool {
    std::path::Path::new(p).exists()
}

}
