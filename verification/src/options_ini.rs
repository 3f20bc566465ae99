//! The options file of the game as a document of named sections, each a
//! list of keys with values. `ini` parses, changes and writes the document.

use ini::{Ini, ParseError};
use vstd::prelude::*;

verus! {

/// `ini::Ini`, a document. It is held and handed on; what it holds is known
/// through `ini_sections` and `ini_text` alone.
#[verifier::external_type_specification]
#[verifier::external_body]
pub struct ExIni(Ini);

/// `ini::ParseError`, why a text is no document. Nothing of it is read.
#[verifier::external_type_specification]
#[verifier::external_body]
pub struct ExParseError(ParseError);

/// What lookups see of a document: for each named section its keys, each
/// with its value. Where a name or a key occurs more than once, the first
/// stands for all.
pub type Sections = Map<Seq<char>, Map<Seq<char>, Seq<char>>>;

/// The named sections that a document holds.
pub uninterp spec fn ini_sections(ini: Ini) -> Sections;

/// The text that a document is written as.
pub uninterp spec fn ini_text(ini: Ini) -> Seq<char>;

/// The named sections of the document that a text parses to, `None` where
/// the text is no document.
pub uninterp spec fn parsed_ini(text: Seq<char>) -> Option<Sections>;

/// The value of a key in a section, where both are there.
pub open spec fn section_value(sections: Sections, section: Seq<char>, key: Seq<char>) -> Option<
    Seq<char>,
> {
    if sections.dom().contains(section) && sections[section].dom().contains(key) {
        Some(sections[section][key])
    } else {
        None
    }
}

/// The sections after a key of a section is set: the key has the value, and
/// nothing else differs. A section that was not there holds that key alone.
pub open spec fn sections_with(
    sections: Sections,
    section: Seq<char>,
    key: Seq<char>,
    value: Seq<char>,
) -> Sections {
    let before = if sections.dom().contains(section) {
        sections[section]
    } else {
        Map::empty()
    };
    sections.insert(section, before.insert(key, value))
}

/// Calls `ini::Ini::load_from_str`. Trusted: the document returned holds the
/// sections that `parsed_ini` names for the text, and the call fails exactly
/// where `parsed_ini` names none.
#[verifier::external_body]
fn load_from_str(text: &str) -> (res: Result<Ini, ParseError>)
    ensures
        match res {
            Ok(ini) => parsed_ini(text@) == Some(ini_sections(ini)),
            Err(_) => parsed_ini(text@) is None,
        },
{
    Ini::load_from_str(text)
}

/// Calls `ini::Ini::section`. Trusted: a section is found exactly where the
/// document holds one of that name.
#[verifier::external_body]
fn section_exists(ini: &Ini, section: &str) -> (res: bool)
    ensures
        res == ini_sections(*ini).dom().contains(section@),
{
    ini.section(Some(section)).is_some()
}

/// Calls `ini::Ini::get_from`. Trusted: the result is the first value of the
/// key in the first section of that name, `None` where either is missing.
#[verifier::external_body]
fn get_from(ini: &Ini, section: &str, key: &str) -> (res: Option<String>)
    ensures
        res is Some <==> section_value(ini_sections(*ini), section@, key@) is Some,
        res matches Some(value) ==> section_value(ini_sections(*ini), section@, key@) == Some(
            value@,
        ),
{
    match ini.get_from(Some(section), key) {
        Some(value) => Some(value.to_owned()),
        None => None,
    }
}

/// Calls `ini::Ini::set_to`. Trusted: afterwards the key of the section has
/// the value, the section is there, and no other key or section differs.
#[verifier::external_body]
fn set_to(ini: &mut Ini, section: &str, key: &str, value: &str)
    ensures
        ini_sections(*final(ini)) == sections_with(
            ini_sections(*old(ini)),
            section@,
            key@,
            value@,
        ),
{
    ini.set_to(Some(section), key.to_owned(), value.to_owned());
}

/// Calls `ini::Ini::write_to` on a buffer in memory. Trusted: the text
/// returned is the one that `ini_text` names for the document.
#[verifier::external_body]
fn write_to(ini: &Ini) -> (res: String)
    ensures
        res@ == ini_text(*ini),
{
    let mut buffer: Vec<u8> = Vec::new();
    let _ = ini.write_to(&mut buffer);
    String::from_utf8_lossy(&buffer).into_owned()
}

/// A parsed options file.
pub struct OptionsIni {
    ini: Ini,
}

impl OptionsIni {
    /// The named sections of the document.
    pub closed spec fn sections(&self) -> Sections {
        ini_sections(self.ini)
    }

    /// The text that the document is written as.
    pub closed spec fn text(&self) -> Seq<char> {
        ini_text(self.ini)
    }

    /// Parses the text of an options file; `None` where it is no document.
    pub fn parse(text: &str) -> (res: Option<OptionsIni>)
        ensures
            match res {
                Some(options) => parsed_ini(text@) == Some(options.sections()),
                None => parsed_ini(text@) is None,
            },
    {
        match load_from_str(text) {
            Ok(ini) => Some(OptionsIni { ini }),
            Err(_) => None,
        }
    }

    /// Whether the document has a section of the name.
    pub fn has_section(&self, section: &str) -> (res: bool)
        ensures
            res == self.sections().dom().contains(section@),
    {
        section_exists(&self.ini, section)
    }

    /// The value of a key in a section.
    pub fn get(&self, section: &str, key: &str) -> (res: Option<String>)
        ensures
            res is Some <==> section_value(self.sections(), section@, key@) is Some,
            res matches Some(value) ==> section_value(self.sections(), section@, key@) == Some(
                value@,
            ),
    {
        get_from(&self.ini, section, key)
    }

    /// Sets a key in a section and leaves everything else as it is.
    pub fn set(&mut self, section: &str, key: &str, value: &str)
        ensures
            final(self).sections() == sections_with(
                old(self).sections(),
                section@,
                key@,
                value@,
            ),
    {
        set_to(&mut self.ini, section, key, value);
    }

    /// Writes the document out as text.
    pub fn to_text(&self) -> (res: String)
        ensures
            res@ == self.text(),
    {
        write_to(&self.ini)
    }
}

/// Whether a text is what some document with the given sections is written
/// as.
pub open spec fn written_as(sections: Sections, text: Seq<char>) -> bool {
    exists|options: OptionsIni| #[trigger] options.text() == text && options.sections() == sections
}

} // verus!
