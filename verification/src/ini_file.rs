//! Configuration files: what the INI reader `rust-ini` found in a text.
//!
//! Nothing is proved of the reader.  What this module says of it is stated
//! once, in the contracts of the functions marked `external_body`, and taken
//! on trust from there on.
use vstd::prelude::*;
use vstd::string::StrSliceExecFns;
use ini::Ini;
use ini::ParseError;
use ini::Properties;

verus! {

/// A parsed file of `rust-ini`, opaque here.
#[verifier::external_type_specification]
#[verifier::external_body]
pub struct ExIni(Ini);

/// One section of a parsed file, opaque here.
#[verifier::external_type_specification]
#[verifier::external_body]
pub struct ExProperties(Properties);

/// The reader's complaint about a text that it rejects, opaque here.
#[verifier::external_type_specification]
#[verifier::external_body]
pub struct ExParseError(ParseError);

/// The keys of a section, each with the first value that the section gives it.
pub uninterp spec fn section_entries(section: Properties) -> Map<Seq<char>, Seq<char>>;

/// The named sections of a file, each name with the entries of the first
/// section that carries it.
pub uninterp spec fn ini_sections(file: Ini) -> Map<Seq<char>, Map<Seq<char>, Seq<char>>>;

/// The named sections that `Ini::load_from_str` reads out of a text, or
/// `None` for a text that it rejects.
pub uninterp spec fn ini_parse(text: Seq<char>) -> Option<Map<Seq<char>, Map<Seq<char>, Seq<char>>>>;

/// Calls `Ini::load_from_str`, which parses with the reader's default
/// options.  Trusted: the file that comes back holds the sections that
/// [`ini_parse`] names for this text, and an error comes back exactly where
/// [`ini_parse`] names none.
#[verifier::external_body]
pub(crate) fn ini_load_from_str(text: &str) -> (loaded: Result<Ini, ParseError>)
    ensures
        match loaded {
            Ok(file) => ini_parse(text@) == Some(ini_sections(file)),
            Err(_) => ini_parse(text@) is None,
        },
{
    Ini::load_from_str(text)
}

/// Calls `Ini::section` with a name.  Trusted: it hands out the first section
/// of that name, and `None` exactly where the file has no section of that
/// name.
#[verifier::external_body]
pub(crate) fn ini_section<'a>(file: &'a Ini, name: &str) -> (section: Option<&'a Properties>)
    ensures
        match section {
            Some(s) => ini_sections(*file).contains_key(name@) && ini_sections(*file)[name@]
                == section_entries(*s),
            None => !ini_sections(*file).contains_key(name@),
        },
{
    file.section(Some(name))
}

/// Calls `Properties::get`.  Trusted: it hands out the first value of the
/// key, and `None` exactly where the section lacks the key.
#[verifier::external_body]
pub(crate) fn section_get<'a>(section: &'a Properties, key: &str) -> (value: Option<&'a str>)
    ensures
        match value {
            Some(v) => section_entries(*section).contains_key(key@) && section_entries(
                *section,
            )[key@] == v@,
            None => !section_entries(*section).contains_key(key@),
        },
{
    section.get(key)
}

/// Calls `Properties::contains_key`.  Trusted: it tells whether the section
/// has the key.
#[verifier::external_body]
pub(crate) fn section_contains_key(section: &Properties, key: &str) -> (found: bool)
    ensures
        found == section_entries(*section).contains_key(key@),
{
    section.contains_key(key)
}

/// A text without the byte order mark that may stand at its start.
pub open spec fn without_byte_order_mark(text: Seq<char>) -> Seq<char> {
    if text.len() > 0 && text[0] == '\u{feff}' {
        text.subrange(1, text.len() as int)
    } else {
        text
    }
}

/// Drops the byte order mark at the start of a text, if there is one.
pub fn strip_byte_order_mark(text: &str) -> (rest: &str)
    ensures
        rest@ == without_byte_order_mark(text@),
{
    let length = text.unicode_len();
    if length > 0 && text.get_char(0) == '\u{feff}' {
        text.substring_char(1, length)
    } else {
        text
    }
}

/// The sections of a configuration file with the given text, or `None` for
/// a text that is no INI file.
pub open spec fn file_sections(text: Seq<char>) -> Option<Map<Seq<char>, Map<Seq<char>, Seq<char>>>> {
    ini_parse(without_byte_order_mark(text))
}

/// Parses the text of a configuration file.  A byte order mark at the start
/// is not part of the file.  A text that cannot be parsed counts as no file.
pub fn parse_file(text: &str) -> (parsed: Option<Ini>)
    ensures
        match parsed {
            Some(file) => file_sections(text@) == Some(ini_sections(file)),
            None => file_sections(text@) is None,
        },
{
    match ini_load_from_str(strip_byte_order_mark(text)) {
        Ok(file) => Some(file),
        Err(_) => None,
    }
}

} // verus!
