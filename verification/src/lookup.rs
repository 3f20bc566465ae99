//! What the caller reports of the system: registry values, paths that the
//! system knows, and probes of the file system.

use crate::path::{path_text, utf8_path};
use std::path::PathBuf;
use vstd::prelude::*;

verus! {

/// What a lookup of a registry value gave.
#[derive(Debug, PartialEq, Eq)]
pub enum RegistryLookup<T> {
    /// The key could not be opened.
    KeyMissing,
    /// The key has no such value, or one of another type.
    ValueMissing,
    /// The value.
    Value(T),
}

/// What a probe of a path gave. A probe that failed says nothing about
/// whether the path exists.
#[derive(Clone, Copy, Debug, PartialEq, Eq, Structural)]
pub enum Probe {
    Found,
    NotFound,
    ProbeError,
}

/// What the system gave when asked for a path of its own.
#[derive(Debug, PartialEq, Eq)]
pub enum PathLookup {
    /// The system knows of no such path.
    Unavailable,
    /// The path is not UTF-8; the text describes it.
    NotUtf8(String),
    /// The path.
    Path(String),
}

/// A lookup as contracts speak of it: nothing, the description of a path
/// that is not UTF-8, or the text of the path.
pub enum PathLookupView {
    Unavailable,
    NotUtf8(Seq<char>),
    Path(Seq<char>),
}

impl View for PathLookup {
    type V = PathLookupView;

    open spec fn view(&self) -> PathLookupView {
        match *self {
            PathLookup::Unavailable => PathLookupView::Unavailable,
            PathLookup::NotUtf8(text) => PathLookupView::NotUtf8(text@),
            PathLookup::Path(text) => PathLookupView::Path(text@),
        }
    }
}

/// What a path that the system gave, or gave not, comes to as a lookup.
pub open spec fn path_lookup(path: Option<PathBuf>) -> PathLookupView {
    match path {
        None => PathLookupView::Unavailable,
        Some(path) => match path_text(path) {
            Ok(text) => PathLookupView::Path(text),
            Err(text) => PathLookupView::NotUtf8(text),
        },
    }
}

impl PathLookup {
    /// Takes what the system gave as a path, if it gave one, and reads it
    /// as text: the text of the path where the path is UTF-8, and else the
    /// description of the path.
    pub fn from_path_buf(path: Option<PathBuf>) -> (res: PathLookup)
        ensures
            res@ == path_lookup(path),
    {
        match path {
            None => PathLookup::Unavailable,
            Some(path) => match utf8_path(path) {
                Ok(text) => PathLookup::Path(text),
                Err(text) => PathLookup::NotUtf8(text),
            },
        }
    }
}

} // verus!
