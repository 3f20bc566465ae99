//! The effect of an activity. An activity decides on one effect on the file
//! system; the caller performs it and reports whether it was done.

use crate::error::{text_result_view, ErrorKind, ErrorView, InstallerError};
use vstd::prelude::*;
use vstd::string::StringExecFns;
use vstd::utf8::encode_utf8;

verus! {

/// An effect on the file system, to be performed by the caller.
#[derive(Debug, PartialEq, Eq)]
pub enum Effect {
    /// Write the bytes to the path, over any file that is there.
    WriteFile { path: String, bytes: Vec<u8> },
    /// Copy the file at the source to the destination, where no file is.
    CopyFile { source: String, destination: String },
    /// Remove the file at the path.
    RemoveFile { path: String },
    /// Write the text to the path, over the file that is there.
    WriteText { path: String, contents: String },
}

/// An effect as contracts speak of it.
pub enum EffectView {
    WriteFile { path: Seq<char>, bytes: Seq<u8> },
    CopyFile { source: Seq<char>, destination: Seq<char> },
    RemoveFile { path: Seq<char> },
    WriteText { path: Seq<char>, contents: Seq<char> },
}

impl View for Effect {
    type V = EffectView;

    open spec fn view(&self) -> EffectView {
        match *self {
            Effect::WriteFile { path, bytes } => EffectView::WriteFile {
                path: path@,
                bytes: bytes@,
            },
            Effect::CopyFile { source, destination } => EffectView::CopyFile {
                source: source@,
                destination: destination@,
            },
            Effect::RemoveFile { path } => EffectView::RemoveFile { path: path@ },
            Effect::WriteText { path, contents } => EffectView::WriteText {
                path: path@,
                contents: contents@,
            },
        }
    }
}

/// An effect or a failure, as contracts speak of it.
pub open spec fn effect_result_view(r: Result<Effect, InstallerError>) -> Result<
    EffectView,
    ErrorView,
> {
    match r {
        Ok(effect) => Ok(effect@),
        Err(e) => Err(e@),
    }
}

/// What a failure to copy is about: the source, an arrow on a line of its
/// own, and the destination.
pub open spec fn copy_context(source: Seq<char>, destination: Seq<char>) -> Seq<char> {
    source + "\n-->\n"@ + destination
}

/// How an effect ends: with the path that now holds the result (for a
/// removal, the path that no longer holds a file), or with the failure of
/// its kind. A copy that failed is about its source and its destination,
/// every other failure about the path it should have changed.
pub open spec fn concluded(effect: EffectView, done: bool) -> Result<Seq<char>, ErrorView> {
    match effect {
        EffectView::WriteFile { path, bytes } => if done {
            Ok(path)
        } else {
            Err((ErrorKind::WriteFailed, path))
        },
        EffectView::CopyFile { source, destination } => if done {
            Ok(destination)
        } else {
            Err((ErrorKind::CopyFailed, copy_context(source, destination)))
        },
        EffectView::RemoveFile { path } => if done {
            Ok(path)
        } else {
            Err((ErrorKind::DeleteFailed, path))
        },
        EffectView::WriteText { path, contents } => if done {
            Ok(path)
        } else {
            Err((ErrorKind::WriteFailed, path))
        },
    }
}

/// Writes what a failure to copy is about.
pub fn get_copy_context(source: &str, destination: &str) -> (res: String)
    ensures
        res@ == copy_context(source@, destination@),
{
    let mut context = String::from_str(source);
    context.append("\n-->\n");
    context.append(destination);
    context
}

/// Concludes an activity from whether its effect was done.
pub fn conclude(effect: Effect, done: bool) -> (res: Result<String, InstallerError>)
    ensures
        text_result_view(res) == concluded(effect@, done),
{
    match effect {
        Effect::WriteFile { path, bytes } => {
            if done {
                Ok(path)
            } else {
                Err(InstallerError::new(ErrorKind::WriteFailed, path))
            }
        },
        Effect::CopyFile { source, destination } => {
            if done {
                Ok(destination)
            } else {
                Err(
                    InstallerError::new(
                        ErrorKind::CopyFailed,
                        get_copy_context(source.as_str(), destination.as_str()),
                    ),
                )
            }
        },
        Effect::RemoveFile { path } => {
            if done {
                Ok(path)
            } else {
                Err(InstallerError::new(ErrorKind::DeleteFailed, path))
            }
        },
        Effect::WriteText { path, contents } => {
            if done {
                Ok(path)
            } else {
                Err(InstallerError::new(ErrorKind::WriteFailed, path))
            }
        },
    }
}

/// The files of a system as the laws of the activities speak of them: for
/// each path that holds a file, the bytes of the file.
pub type Files = Map<Seq<char>, Seq<u8>>;

/// The files after an effect was done. A write puts its bytes at its path,
/// over what was there; a copy puts the bytes of the source at the
/// destination; a removal leaves no file at its path; a write of text puts
/// the text there as UTF-8. No other path changes.
pub open spec fn files_after(files: Files, effect: EffectView) -> Files {
    match effect {
        EffectView::WriteFile { path, bytes } => files.insert(path, bytes),
        EffectView::CopyFile { source, destination } => if files.dom().contains(source) {
            files.insert(destination, files[source])
        } else {
            files
        },
        EffectView::RemoveFile { path } => files.remove(path),
        EffectView::WriteText { path, contents } => files.insert(path, encode_utf8(contents)),
    }
}

} // verus!
