use vstd::prelude::*;
use ini::{Ini, Properties};

verus! {

#[verifier::external_type_specification]
#[verifier::external_body]
pub struct ExIni(Ini);

#[verifier::external_type_specification]
#[verifier::external_body]
pub struct ExProperties(Properties);

/// The key-value pairs of a section, in the order the section keeps them.
pub uninterp spec fn property_entries(p: Properties) -> Seq<(Seq<char>, Seq<char>)>;

/// The value of the first entry with exactly this key.
pub open spec fn first_value(entries: Seq<(Seq<char>, Seq<char>)>, key: Seq<char>) -> Option<
    Seq<char>,
>
    decreases entries.len(),
{
    if entries.len() == 0 {
        None
    } else if entries[0].0 == key {
        Some(entries[0].1)
    } else {
        first_value(entries.drop_first(), key)
    }
}

/// Relies on rust-ini's `Properties::get` (without case-insensitive keys): the
/// first value stored under exactly this key, in the section's order.
#[verifier::external_body]
fn property(props: &Properties, key: &str) -> (r: Option<String>)
    ensures
        match r {
            Some(v) => first_value(property_entries(*props), key@) == Some(v@),
            None => first_value(property_entries(*props), key@) is None,
        },
{
    props.get(key).map(String::from)
}

/// The key-value pairs of a file's general section (the entries written
/// before any section header), in order; `None` when it has no such section.
pub uninterp spec fn general_entries(ini: Ini) -> Option<Seq<(Seq<char>, Seq<char>)>>;

/// Relies on rust-ini's `Ini::section(None)`: the section of entries written
/// before any section header, if the file had one; it depends on the `Ini` alone.
#[verifier::external_body]
fn general_section(ini: &Ini) -> (r: Option<&Properties>)
    ensures
        match r {
            Some(p) => general_entries(*ini) == Some(property_entries(*p)),
            None => general_entries(*ini) is None,
        },
{
    ini.section(None::<String>)
}

/// An ASCII decimal digit.
pub open spec fn is_decimal_digit(c: char) -> bool {
    '0' <= c && c <= '9'
}

/// The number written by a string of decimal digits.
pub open spec fn decimal_value(s: Seq<char>) -> nat
    decreases s.len(),
{
    if s.len() == 0 {
        0
    } else {
        decimal_value(s.drop_last()) * 10 + (s.last() as nat - '0' as nat) as nat
    }
}

/// What std's `u32` parsing accepts: an optional `+`, then one or more decimal
/// digits whose value fits in 32 bits; anything else is rejected.
pub open spec fn u32_text_value(s: Seq<char>) -> Option<u32> {
    let digits = if s.len() > 0 && s[0] == '+' {
        s.drop_first()
    } else {
        s
    };
    if digits.len() > 0 && (forall|i: int| 0 <= i < digits.len() ==> is_decimal_digit(#[trigger] digits[i]))
        && decimal_value(digits) <= u32::MAX {
        Some(decimal_value(digits) as u32)
    } else {
        None
    }
}

/// What std's `bool` parsing accepts: exactly `true` or `false`.
pub open spec fn bool_text_value(s: Seq<char>) -> Option<bool> {
    if s == "true"@ {
        Some(true)
    } else if s == "false"@ {
        Some(false)
    } else {
        None
    }
}

/// Relies on `<u32 as FromStr>::from_str`: an optional `+` then decimal
/// digits, rejected when empty, holding any other character, or too large.
#[verifier::external_body]
fn parse_u32(s: &str) -> (r: Option<u32>)
    ensures
        r == u32_text_value(s@),
{
    s.parse::<u32>().ok()
}

/// Relies on `<bool as FromStr>::from_str`: only `true` and `false` are accepted.
#[verifier::external_body]
fn parse_bool(s: &str) -> (r: Option<bool>)
    ensures
        r == bool_text_value(s@),
{
    s.parse::<bool>().ok()
}

/// Whether to open a console for the log.
pub const DEFAULT_CONSOLE: bool = true;

/// Window width; zero stands for the display's.
pub const DEFAULT_WIDTH: u32 = 1920;

/// Window height; zero stands for the display's.
pub const DEFAULT_HEIGHT: u32 = 1080;

/// Whether to make the window borderless at the chosen size.
pub const DEFAULT_FULLSCREEN: bool = true;

/// The typed settings the core reads, each with its default.
#[derive(Clone, Copy, Debug, PartialEq, Eq, Structural)]
pub struct Settings {
    pub console: bool,
    pub width: u32,
    pub height: u32,
    pub fullscreen: bool,
}

/// The pairs of a general section, or `None` when there is none.
pub type Section = Option<Seq<(Seq<char>, Seq<char>)>>;

/// The text stored under `key` in the general section, if any.
pub open spec fn lookup(section: Section, key: Seq<char>) -> Option<Seq<char>> {
    match section {
        Some(entries) => first_value(entries, key),
        None => None,
    }
}

/// An unsigned setting: the stored text's value, or the default when the key
/// is absent or its text is not a `u32`.
pub open spec fn u32_setting(section: Section, key: Seq<char>, default: u32) -> u32 {
    match lookup(section, key) {
        Some(t) => match u32_text_value(t) {
            Some(v) => v,
            None => default,
        },
        None => default,
    }
}

/// A boolean setting: the stored text's value, or the default when the key
/// is absent or its text is neither `true` nor `false`.
pub open spec fn bool_setting(section: Section, key: Seq<char>, default: bool) -> bool {
    match lookup(section, key) {
        Some(t) => match bool_text_value(t) {
            Some(v) => v,
            None => default,
        },
        None => default,
    }
}

/// The settings that a general section (or its absence) yields.
pub open spec fn settings_of(section: Section) -> Settings {
    Settings {
        console: bool_setting(section, "console"@, DEFAULT_CONSOLE),
        width: u32_setting(section, "width"@, DEFAULT_WIDTH),
        height: u32_setting(section, "height"@, DEFAULT_HEIGHT),
        fullscreen: bool_setting(section, "fullscreen"@, DEFAULT_FULLSCREEN),
    }
}

/// The pairs of an optional section.
pub open spec fn section_entries(section: Option<&Properties>) -> Section {
    match section {
        Some(p) => Some(property_entries(*p)),
        None => None,
    }
}

fn u32_entry(section: Option<&Properties>, key: &str, default: u32) -> (r: u32)
    ensures
        r == u32_setting(section_entries(section), key@, default),
{
    match section {
        Some(p) => match property(p, key) {
            Some(text) => match parse_u32(text.as_str()) {
                Some(v) => v,
                None => default,
            },
            None => default,
        },
        None => default,
    }
}

fn bool_entry(section: Option<&Properties>, key: &str, default: bool) -> (r: bool)
    ensures
        r == bool_setting(section_entries(section), key@, default),
{
    match section {
        Some(p) => match property(p, key) {
            Some(text) => match parse_bool(text.as_str()) {
                Some(v) => v,
                None => default,
            },
            None => default,
        },
        None => default,
    }
}

/// Reads the settings from the general section of a configuration file;
/// absent keys and unparsable values fall back to their defaults silently.
pub fn settings_from(section: Option<&Properties>) -> (r: Settings)
    ensures
        r == settings_of(section_entries(section)),
{
    Settings {
        console: bool_entry(section, "console", DEFAULT_CONSOLE),
        width: u32_entry(section, "width", DEFAULT_WIDTH),
        height: u32_entry(section, "height", DEFAULT_HEIGHT),
        fullscreen: bool_entry(section, "fullscreen", DEFAULT_FULLSCREEN),
    }
}

/// Reads the settings from a loaded configuration file: those of its general
/// section, or every default when it has none.
pub fn read(ini: &Ini) -> (r: Settings)
    ensures
        r == settings_of(general_entries(*ini)),
{
    let section = general_section(ini);
    settings_from(section)
}

} // verus!
