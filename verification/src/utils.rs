//! The directory of the running program, next to which backups are put.

use crate::error::{text_result_view, ErrorKind, ErrorView, InstallerError};
use crate::lookup::PathLookup;
use crate::path::{parent, path_parent};
use vstd::prelude::*;
use vstd::string::StringExecFns;

verus! {

/// What the lookup of the running program is called in a failure.
pub const CURRENT_EXE: &'static str = "current_exe";

/// The directory of the running program, from the lookup of its path. A
/// path without a parent is a failure about that path.
pub open spec fn dir_of_running_exe(exe_path: PathLookup) -> Result<Seq<char>, ErrorView> {
    match exe_path {
        PathLookup::Unavailable => Err((ErrorKind::ExternalLookupFailure, CURRENT_EXE@)),
        PathLookup::NotUtf8(text) => Err((ErrorKind::PathEncodingFailure, text@)),
        PathLookup::Path(path) => match path_parent(path@) {
            None => Err((ErrorKind::ExternalLookupFailure, path@)),
            Some(dir) => Ok(dir),
        },
    }
}

/// Gives the directory that holds the running program, from the lookup of
/// the program's path.
pub fn get_dir_of_running_exe(exe_path: PathLookup) -> (res: Result<String, InstallerError>)
    ensures
        text_result_view(res) == dir_of_running_exe(exe_path),
{
    match exe_path {
        PathLookup::Unavailable => Err(
            InstallerError::new(ErrorKind::ExternalLookupFailure, String::from_str(CURRENT_EXE)),
        ),
        PathLookup::NotUtf8(text) => Err(
            InstallerError::new(ErrorKind::PathEncodingFailure, text),
        ),
        PathLookup::Path(path) => match parent(path.as_str()) {
            None => Err(InstallerError::new(ErrorKind::ExternalLookupFailure, path)),
            Some(dir) => Ok(dir),
        },
    }
}

} // verus!
