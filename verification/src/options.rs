//! The Steam Cloud flag of the options file: whether the game saves to the
//! Steam Cloud directory or to the documents directory.

use crate::constants::{OPTIONS_INI, OPTIONS_SECTION_NAME, STEAM_CLOUD_NAME};
use crate::effect::Effect;
use crate::error::{result_view, ErrorKind, ErrorView, InstallerError};
use crate::options_ini::{
    parsed_ini, section_value, sections_with, written_as, OptionsIni, Sections,
};
use crate::path::{join_path, joined_path};
use crate::text::same_text;
use vstd::prelude::*;
use vstd::string::StringExecFns;

verus! {

/// What reading the options file gave.
#[derive(Debug, PartialEq, Eq)]
pub enum ConfigRead {
    /// There is no such file.
    NotFound,
    /// The file could not be probed or read.
    ReadError,
    /// The text of the file.
    Contents(String),
}

/// The path of the options file in the documents save data directory.
pub open spec fn options_ini_path(documents_save_data_path: Seq<char>) -> Seq<char> {
    joined_path(documents_save_data_path, OPTIONS_INI@)
}

/// The text that the flag is stored as.
pub open spec fn flag_text(enabled: bool) -> Seq<char> {
    if enabled {
        "1"@
    } else {
        "0"@
    }
}

/// The flag that a stored text stands for. Only `0` and `1` stand for one.
pub open spec fn flag_value(value: Seq<char>) -> Result<bool, ErrorView> {
    if value == "0"@ {
        Ok(false)
    } else if value == "1"@ {
        Ok(true)
    } else {
        Err((ErrorKind::ConfigValueInvalid, value))
    }
}

/// The flag that the sections of a document hold. A document without the
/// section or without the key holds none, and no default stands in.
pub open spec fn steam_cloud_flag(sections: Sections) -> Result<bool, ErrorView> {
    if !sections.dom().contains(OPTIONS_SECTION_NAME@) {
        Err((ErrorKind::ConfigFieldMissing, OPTIONS_SECTION_NAME@))
    } else if !sections[OPTIONS_SECTION_NAME@].dom().contains(STEAM_CLOUD_NAME@) {
        Err((ErrorKind::ConfigFieldMissing, STEAM_CLOUD_NAME@))
    } else {
        flag_value(sections[OPTIONS_SECTION_NAME@][STEAM_CLOUD_NAME@])
    }
}

/// The sections after the flag is set.
pub open spec fn sections_with_flag(sections: Sections, enabled: bool) -> Sections {
    sections_with(sections, OPTIONS_SECTION_NAME@, STEAM_CLOUD_NAME@, flag_text(enabled))
}

/// The sections of the options file, from what reading it gave. Each
/// failure is about the path of the file.
pub open spec fn options_sections(documents_save_data_path: Seq<char>, read: ConfigRead) -> Result<
    Sections,
    ErrorView,
> {
    match read {
        ConfigRead::NotFound => Err(
            (ErrorKind::ConfigMissing, options_ini_path(documents_save_data_path)),
        ),
        ConfigRead::ReadError => Err(
            (ErrorKind::ExternalLookupFailure, options_ini_path(documents_save_data_path)),
        ),
        ConfigRead::Contents(text) => match parsed_ini(text@) {
            None => Err((ErrorKind::ConfigParseError, options_ini_path(documents_save_data_path))),
            Some(sections) => Ok(sections),
        },
    }
}

/// The flag of the options file, from what reading it gave.
pub open spec fn steam_cloud_enabled(documents_save_data_path: Seq<char>, read: ConfigRead) -> Result<
    bool,
    ErrorView,
> {
    match options_sections(documents_save_data_path, read) {
        Err(e) => Err(e),
        Ok(sections) => steam_cloud_flag(sections),
    }
}

/// Whether `res` is what setting the flag of the options file comes to.
/// Setting fails as reading the flag fails, with the same failure. Else it
/// is the write of the whole document to the path of the options file, and
/// the document written holds the sections that were read, with the flag
/// set and nothing else changed.
pub open spec fn is_flag_write(
    documents_save_data_path: Seq<char>,
    read: ConfigRead,
    enabled: bool,
    res: Result<Effect, InstallerError>,
) -> bool {
    match res {
        Ok(effect) => {
            &&& steam_cloud_enabled(documents_save_data_path, read) is Ok
            &&& effect matches Effect::WriteText { path, contents }
            &&& path@ == options_ini_path(documents_save_data_path)
            &&& written_as(
                sections_with_flag(
                    options_sections(documents_save_data_path, read)->Ok_0,
                    enabled,
                ),
                contents@,
            )
        },
        Err(e) => steam_cloud_enabled(documents_save_data_path, read) == Err::<bool, ErrorView>(
            e@,
        ),
    }
}

/// Composes the path of the options file.
pub fn get_options_ini_path(documents_save_data_path: &str) -> (res: String)
    ensures
        res@ == options_ini_path(documents_save_data_path@),
{
    join_path(documents_save_data_path, OPTIONS_INI)
}

/// Parses what reading the options file gave.
pub fn get_options_ini(documents_save_data_path: &str, read: &ConfigRead) -> (res: Result<
    OptionsIni,
    InstallerError,
>)
    ensures
        match res {
            Ok(options) => options_sections(documents_save_data_path@, *read) == Ok::<
                Sections,
                ErrorView,
            >(options.sections()),
            Err(e) => options_sections(documents_save_data_path@, *read) == Err::<
                Sections,
                ErrorView,
            >(e@),
        },
{
    match read {
        ConfigRead::NotFound => Err(
            InstallerError::new(
                ErrorKind::ConfigMissing,
                get_options_ini_path(documents_save_data_path),
            ),
        ),
        ConfigRead::ReadError => Err(
            InstallerError::new(
                ErrorKind::ExternalLookupFailure,
                get_options_ini_path(documents_save_data_path),
            ),
        ),
        ConfigRead::Contents(text) => match OptionsIni::parse(text.as_str()) {
            Some(options) => Ok(options),
            None => Err(
                InstallerError::new(
                    ErrorKind::ConfigParseError,
                    get_options_ini_path(documents_save_data_path),
                ),
            ),
        },
    }
}

/// Reads the flag from the text it is stored as: `0` is off, `1` is on, and
/// any other text is a failure that carries the text.
pub fn parse_steam_cloud_value(value: &str) -> (res: Result<bool, InstallerError>)
    ensures
        result_view(res) == flag_value(value@),
{
    if same_text(value, "0") {
        Ok(false)
    } else if same_text(value, "1") {
        Ok(true)
    } else {
        Err(InstallerError::new(ErrorKind::ConfigValueInvalid, String::from_str(value)))
    }
}

/// Reads the flag from a parsed options file.
pub fn read_flag(options: &OptionsIni) -> (res: Result<bool, InstallerError>)
    ensures
        result_view(res) == steam_cloud_flag(options.sections()),
{
    if !options.has_section(OPTIONS_SECTION_NAME) {
        return Err(
            InstallerError::new(
                ErrorKind::ConfigFieldMissing,
                String::from_str(OPTIONS_SECTION_NAME),
            ),
        );
    }
    match options.get(OPTIONS_SECTION_NAME, STEAM_CLOUD_NAME) {
        None => Err(
            InstallerError::new(ErrorKind::ConfigFieldMissing, String::from_str(STEAM_CLOUD_NAME)),
        ),
        Some(steam_cloud_string) => parse_steam_cloud_value(steam_cloud_string.as_str()),
    }
}

/// Says whether the game saves to the Steam Cloud, from what reading the
/// options file gave.
pub fn get_steam_cloud_enabled(documents_save_data_path: &str, read: &ConfigRead) -> (res: Result<
    bool,
    InstallerError,
>)
    ensures
        result_view(res) == steam_cloud_enabled(documents_save_data_path@, *read),
{
    let options_ini = match get_options_ini(documents_save_data_path, read) {
        Ok(options) => options,
        Err(e) => {
            return Err(e);
        },
    };
    read_flag(&options_ini)
}

/// Prepares the options file with the flag set to a value. The file as it
/// was read must hold a valid flag, as for reading it. The text to write is
/// the whole document, in which the one key is set and nothing else
/// differs. Nothing is written here: the write is the effect handed out.
pub fn write_flag(documents_save_data_path: &str, read: &ConfigRead, new_value: bool) -> (res:
    Result<Effect, InstallerError>)
    ensures
        is_flag_write(documents_save_data_path@, *read, new_value, res),
{
    let mut options_ini = match get_options_ini(documents_save_data_path, read) {
        Ok(options) => options,
        Err(e) => {
            return Err(e);
        },
    };
    match read_flag(&options_ini) {
        Ok(_) => {},
        Err(e) => {
            return Err(e);
        },
    }
    let setting = if new_value {
        "1"
    } else {
        "0"
    };
    options_ini.set(OPTIONS_SECTION_NAME, STEAM_CLOUD_NAME, setting);
    let path = get_options_ini_path(documents_save_data_path);
    let contents = options_ini.to_text();
    Ok(Effect::WriteText { path, contents })
}

/// Prepares the options file with the flag flipped from what it was.
pub fn toggle_steam_cloud_enabled(
    documents_save_data_path: &str,
    read: &ConfigRead,
    previously_enabled: bool,
) -> (res: Result<Effect, InstallerError>)
    ensures
        is_flag_write(documents_save_data_path@, *read, !previously_enabled, res),
{
    write_flag(documents_save_data_path, read, !previously_enabled)
}

/// Only `1` and `0` are flags: `1` is on, `0` is off, and every other text
/// is invalid and is carried by the failure.
pub proof fn lemma_flag_value(value: Seq<char>)
    ensures
        flag_value(value) == Ok::<bool, ErrorView>(true) <==> value == "1"@,
        flag_value(value) == Ok::<bool, ErrorView>(false) <==> value == "0"@,
        value != "0"@ && value != "1"@ ==> flag_value(value) == Err::<bool, ErrorView>(
            (ErrorKind::ConfigValueInvalid, value),
        ),
{
    reveal_strlit("0");
    reveal_strlit("1");
    assert("0"@[0] != "1"@[0]);
}

/// Setting the flag makes the document hold it: whatever the sections held
/// before, reading the flag afterwards gives the value set.
pub proof fn lemma_flag_reads_back(sections: Sections, enabled: bool)
    ensures
        steam_cloud_flag(sections_with_flag(sections, enabled)) == Ok::<bool, ErrorView>(enabled),
{
    reveal_strlit("0");
    reveal_strlit("1");
    assert("0"@[0] != "1"@[0]);
}

/// Setting the flag twice to one value is setting it once.
pub proof fn lemma_flag_set_twice(sections: Sections, enabled: bool)
    ensures
        sections_with_flag(sections_with_flag(sections, enabled), enabled) == sections_with_flag(
            sections,
            enabled,
        ),
{
    let once = sections_with_flag(sections, enabled);
    assert(once[OPTIONS_SECTION_NAME@].insert(STEAM_CLOUD_NAME@, flag_text(enabled))
        =~= once[OPTIONS_SECTION_NAME@]);
}

/// Setting the flag changes that key alone: every other key of the section
/// and every other section is as before.
pub proof fn lemma_flag_changes_one_key(
    sections: Sections,
    enabled: bool,
    section: Seq<char>,
    key: Seq<char>,
)
    requires
        section != OPTIONS_SECTION_NAME@ || key != STEAM_CLOUD_NAME@,
    ensures
        section_value(sections_with_flag(sections, enabled), section, key) == section_value(
            sections,
            section,
            key,
        ),
{
}

} // verus!
