//! Paths as text. `camino` adjoins and splits them, by the rules of the
//! platform that the library is built for.

use camino::{Utf8Path, Utf8PathBuf};
use std::path::PathBuf;
use vstd::prelude::*;

verus! {

/// `std::path::PathBuf`, a path as the system gives it. It is handed on to
/// be read as text; what it holds is known through `path_text` alone.
#[verifier::external_type_specification]
#[verifier::external_body]
pub struct ExPathBuf(PathBuf);

/// A path of the system read as text: `Ok` of its text where the path is
/// UTF-8, `Err` of a text that describes it where it is not.
pub uninterp spec fn path_text(path: PathBuf) -> Result<Seq<char>, Seq<char>>;

/// The path `base` with `part` adjoined, as the platform's rules adjoin it.
pub uninterp spec fn joined_path(base: Seq<char>, part: Seq<char>) -> Seq<char>;

/// The final component of `path`, `None` where it ends in a root or in `..`.
pub uninterp spec fn path_file_name(path: Seq<char>) -> Option<Seq<char>>;

/// The path without its final component, `None` where it ends in a root
/// or a prefix.
pub uninterp spec fn path_parent(path: Seq<char>) -> Option<Seq<char>>;

/// Calls `camino::Utf8Path::join`. Trusted: the text returned is the one that
/// `joined_path` names for the two texts given. What that text looks like is
/// not stated.
#[verifier::external_body]
pub(crate) fn join_path(base: &str, part: &str) -> (res: String)
    ensures
        res@ == joined_path(base@, part@),
{
    Utf8Path::new(base).join(part).into_string()
}

/// Calls `camino::Utf8Path::file_name`. Trusted: the result is the one that
/// `path_file_name` names for the text given.
#[verifier::external_body]
pub(crate) fn file_name(path: &str) -> (res: Option<String>)
    ensures
        res is Some <==> path_file_name(path@) is Some,
        res matches Some(name) ==> path_file_name(path@) == Some(name@),
{
    match Utf8Path::new(path).file_name() {
        Some(name) => Some(name.to_owned()),
        None => None,
    }
}

/// Calls `camino::Utf8Path::parent`. Trusted: the result is the one that
/// `path_parent` names for the text given.
#[verifier::external_body]
pub(crate) fn parent(path: &str) -> (res: Option<String>)
    ensures
        res is Some <==> path_parent(path@) is Some,
        res matches Some(dir) ==> path_parent(path@) == Some(dir@),
{
    match Utf8Path::new(path).parent() {
        Some(dir) => Some(dir.as_str().to_owned()),
        None => None,
    }
}

/// Calls `camino::Utf8PathBuf::from_path_buf`. Trusted: the result is the one
/// that `path_text` names for the path: `Ok` of the path's text where the
/// path is UTF-8, and else `Err` of a text that describes the path. Which
/// paths are UTF-8, and what either text looks like, is not stated.
#[verifier::external_body]
pub(crate) fn utf8_path(path: PathBuf) -> (res: Result<String, String>)
    ensures
        match res {
            Ok(text) => path_text(path) == Ok::<Seq<char>, Seq<char>>(text@),
            Err(text) => path_text(path) == Err::<Seq<char>, Seq<char>>(text@),
        },
{
    match Utf8PathBuf::from_path_buf(path) {
        Ok(path) => Ok(path.into_string()),
        Err(path) => Err(format!("{:?}", path)),
    }
}

} // verus!
