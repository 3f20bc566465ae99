//! The failures of the library. Each ends the run: nothing is retried and
//! no default stands in for a missing or invalid value.

use vstd::prelude::*;

verus! {

/// The kind of a failure.
#[derive(Clone, Copy, Debug, PartialEq, Eq, Structural)]
pub enum ErrorKind {
    /// A lookup of the system did not answer: a registry key or value is
    /// absent, a directory is unknown, a probe of a path failed.
    ExternalLookupFailure,
    /// Nobody is logged into Steam.
    NoActiveSession,
    /// A path cannot be written as UTF-8 text.
    PathEncodingFailure,
    /// The marker file is at neither documents root.
    SaveDataNotFound,
    /// The options file does not exist.
    ConfigMissing,
    /// The options file is not made of sections of keys and values.
    ConfigParseError,
    /// The options file lacks the section or the key.
    ConfigFieldMissing,
    /// The value of the key is neither `0` nor `1`.
    ConfigValueInvalid,
    /// The slot holds no save file.
    SourceMissing,
    /// A file of the backup's name is already at its destination.
    DestinationAlreadyExists,
    /// The save file could not be copied.
    CopyFailed,
    /// The save file could not be removed.
    DeleteFailed,
    /// The save file could not be written.
    WriteFailed,
    /// A selection is outside the choices offered.
    SlotIndexOutOfRange,
}

/// A failure with what it is about: the path, key, value or number that a
/// user needs in order to see what went wrong.
#[derive(Debug, PartialEq, Eq)]
pub struct InstallerError {
    pub kind: ErrorKind,
    pub context: String,
}

/// A failure as contracts speak of it: its kind and the text of its context.
pub type ErrorView = (ErrorKind, Seq<char>);

impl View for InstallerError {
    type V = ErrorView;

    open spec fn view(&self) -> ErrorView {
        (self.kind, self.context@)
    }
}

impl InstallerError {
    /// A failure of the given kind about the given text.
    pub fn new(kind: ErrorKind, context: String) -> (e: InstallerError)
        ensures
            e@ == (kind, context@),
    {
        InstallerError { kind, context }
    }
}

/// A result as contracts speak of it: the value as it is, the failure by
/// its view.
pub open spec fn result_view<T>(r: Result<T, InstallerError>) -> Result<T, ErrorView> {
    match r {
        Ok(v) => Ok(v),
        Err(e) => Err(e@),
    }
}

/// A result whose value is text, as contracts speak of it.
pub open spec fn text_result_view(r: Result<String, InstallerError>) -> Result<
    Seq<char>,
    ErrorView,
> {
    match r {
        Ok(s) => Ok(s@),
        Err(e) => Err(e@),
    }
}

} // verus!
