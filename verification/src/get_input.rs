//! What the user typed, turned into a choice. Reading the line is the
//! caller's part.

use crate::constants::NUM_SAVE_FILES;
use crate::enums::{Activity, IsaacVersion};
use crate::error::{result_view, ErrorKind, ErrorView, InstallerError};
use crate::text::{
    decimal, decimal_string, eq_ignoring_case, number, parse_number, same_ignoring_case, trim,
    trimmed,
};
use vstd::prelude::*;

verus! {

/// The failure of a selection that is none of the choices offered; it
/// carries the number selected.
pub open spec fn out_of_range(input: usize) -> ErrorView {
    (ErrorKind::SlotIndexOutOfRange, decimal(input as nat))
}

/// The release that a selection from the menu of releases picks. The menu
/// counts from 1, in the order of the declaration.
pub open spec fn selected_isaac_version(input: usize) -> Result<IsaacVersion, ErrorView> {
    if 1 <= input <= 5 {
        Ok(IsaacVersion::spec_from_repr((input - 1) as usize)->Some_0)
    } else {
        Err(out_of_range(input))
    }
}

/// The activity that a selection from the menu of activities picks. The
/// menu counts from 1, in the order of the declaration.
pub open spec fn selected_activity(input: usize) -> Result<Activity, ErrorView> {
    if 1 <= input <= 4 {
        Ok(Activity::spec_from_repr((input - 1) as usize)->Some_0)
    } else {
        Err(out_of_range(input))
    }
}

/// The slot that a selection from the menu of slots picks.
pub open spec fn selected_save_file_slot(input: usize) -> Result<usize, ErrorView> {
    if 1 <= input <= NUM_SAVE_FILES {
        Ok(input)
    } else {
        Err(out_of_range(input))
    }
}

fn selection_out_of_range(input: usize) -> (e: InstallerError)
    ensures
        e@ == out_of_range(input),
{
    InstallerError::new(ErrorKind::SlotIndexOutOfRange, decimal_string(input as u64))
}

/// Turns a selection from the menu of releases into the release.
pub fn select_isaac_version(input: usize) -> (res: Result<IsaacVersion, InstallerError>)
    ensures
        result_view(res) == selected_isaac_version(input),
{
    if input == 0 {
        return Err(selection_out_of_range(input));
    }
    match IsaacVersion::from_repr(input - 1) {
        Some(isaac_version) => Ok(isaac_version),
        None => Err(selection_out_of_range(input)),
    }
}

/// Turns a selection from the menu of activities into the activity.
pub fn select_activity(input: usize) -> (res: Result<Activity, InstallerError>)
    ensures
        result_view(res) == selected_activity(input),
{
    if input == 0 {
        return Err(selection_out_of_range(input));
    }
    match Activity::from_repr(input - 1) {
        Some(activity) => Ok(activity),
        None => Err(selection_out_of_range(input)),
    }
}

/// Accepts a selection from the menu of slots where it is one of the slots.
pub fn select_save_file_slot(input: usize) -> (res: Result<usize, InstallerError>)
    ensures
        result_view(res) == selected_save_file_slot(input),
{
    if 1 <= input && input <= NUM_SAVE_FILES {
        Ok(input)
    } else {
        Err(selection_out_of_range(input))
    }
}

/// The answer that a line stands for, the white space around it and the
/// case of its letters left aside: `y` and `yes` agree, `n` and `no`
/// decline, and any other line is no answer.
pub open spec fn yes_no(input: Seq<char>) -> Option<bool> {
    let answer = trimmed(input);
    if same_ignoring_case(answer, "y"@) || same_ignoring_case(answer, "yes"@) {
        Some(true)
    } else if same_ignoring_case(answer, "n"@) || same_ignoring_case(answer, "no"@) {
        Some(false)
    } else {
        None
    }
}

/// Reads the answer to a question that asks for yes or no.
pub fn parse_yes_no(input: &str) -> (res: Option<bool>)
    ensures
        res == yes_no(input@),
{
    let answer = trim(input);
    if eq_ignoring_case(answer, "y") || eq_ignoring_case(answer, "yes") {
        Some(true)
    } else if eq_ignoring_case(answer, "n") || eq_ignoring_case(answer, "no") {
        Some(false)
    } else {
        None
    }
}

/// Reads the number of a selection, the white space around it left aside.
pub fn parse_selection(input: &str) -> (res: Option<usize>)
    ensures
        res == number(trimmed(input@)),
{
    parse_number(trim(input))
}

} // verus!
