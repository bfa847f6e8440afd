//! How the root logger is configured: which minimum level and which output
//! format the environment values select, and how a record's source location
//! is written.

use vstd::prelude::*;
use vstd::string::StrSliceExecFns;

use crate::decimal::{
    all_digits, decimal, digits_value, parse_u64, spec_parse_u64, write_decimal,
    law_decimal_is_shortest, law_parse_decimal_roundtrip,
};
use crate::level::{LogLevel, level_from_usize, level_number, spec_level_from_number, law_level_number_roundtrip};

verus! {

/// The level used when the environment names none, or names it badly.
pub open spec fn default_level() -> LogLevel {
    LogLevel::Info
}

/// The minimum level selected by the text of the level variable (`None`
/// where the variable is not set): the level whose number the text reads
/// as, and the default level otherwise.
pub open spec fn spec_min_log_level(value: Option<Seq<char>>) -> LogLevel {
    match value {
        Some(text) => match spec_parse_u64(text) {
            Some(p) => match spec_level_from_number((p as usize) as nat) {
                Some(l) => l,
                None => default_level(),
            },
            None => default_level(),
        },
        None => default_level(),
    }
}

/// Whether the text of the format variable (`None` where it is not set)
/// selects JSON output: exactly when it is the text `true`.
pub open spec fn spec_use_json(value: Option<Seq<char>>) -> bool {
    value == Some(seq!['t', 'r', 'u', 'e'])
}

/// The view of an optional string.
pub open spec fn text_of(value: Option<&str>) -> Option<Seq<char>> {
    match value {
        Some(v) => Some(v@),
        None => None,
    }
}

/// What the root logger is built from.
#[derive(Clone, Copy, Debug, PartialEq, Eq, Structural)]
pub struct LoggerConfig {
    /// Records are written as JSON (else as formatted terminal text).
    pub use_json: bool,
    /// Records less severe than this are dropped.
    pub min_level: LogLevel,
}

/// Whether two strings hold the same characters.
fn same_text(a: &str, b: &str) -> (res: bool)
    ensures
        res == (a@ == b@),
{
    let n = a.unicode_len();
    if n != b.unicode_len() {
        return false;
    }
    let mut i: usize = 0;
    while i < n
        invariant
            i <= n,
            n == a@.len(),
            n == b@.len(),
            forall|j: int| 0 <= j < i ==> a@[j] == b@[j],
        decreases n - i,
    {
        if a.get_char(i) != b.get_char(i) {
            return false;
        }
        i = i + 1;
    }
    assert(a@ =~= b@);
    true
}

/// The minimum log level that the level variable's text selects: the level
/// with the number the text reads as (1 `Critical` to 6 `Trace`), and
/// `Info` where the variable is unset, is not a number, or names no level.
pub fn min_log_level(value: Option<&str>) -> (res: LogLevel)
    ensures
        res == spec_min_log_level(text_of(value)),
{
    match value {
        Some(text) => match parse_u64(text) {
            Some(p) => match level_from_usize(p as usize) {
                Some(l) => l,
                None => LogLevel::Info,
            },
            None => LogLevel::Info,
        },
        None => LogLevel::Info,
    }
}

/// Whether the format variable's text selects JSON output: only the exact
/// text `true` does.
pub fn use_json_logger(value: Option<&str>) -> (res: bool)
    ensures
        res == spec_use_json(text_of(value)),
{
    match value {
        Some(text) => {
            let expected = "true";
            proof {
                reveal_strlit("true");
                assert(expected@ =~= seq!['t', 'r', 'u', 'e']);
            }
            same_text(text, expected)
        },
        None => false,
    }
}

/// The configuration of the root logger from the texts of the format
/// variable and of the level variable (`None` for an unset variable).
pub fn root_logger_config(use_json_value: Option<&str>, min_level_value: Option<&str>) -> (res:
    LoggerConfig)
    ensures
        res.use_json == spec_use_json(text_of(use_json_value)),
        res.min_level == spec_min_log_level(text_of(min_level_value)),
{
    LoggerConfig {
        use_json: use_json_logger(use_json_value),
        min_level: min_log_level(min_level_value),
    }
}

/// The source location attached to every record: the file, a colon, the
/// line in decimal, a space, and the module path.
pub open spec fn spec_place(file: Seq<char>, line: nat, module: Seq<char>) -> Seq<char> {
    file + seq![':'] + decimal(line) + seq![' '] + module
}

/// Writes the source location of a record as `file:line module`.
pub fn format_place(file: &str, line: u32, module: &str) -> (res: String)
    ensures
        res@ == spec_place(file@, line as nat, module@),
{
    let mut out = String::from_str(file);
    let colon = ":";
    let space = " ";
    proof {
        reveal_strlit(":");
        reveal_strlit(" ");
    }
    out.append(colon);
    write_decimal(&mut out, line as u64);
    out.append(space);
    out.append(module);
    assert(out@ =~= spec_place(file@, line as nat, module@));
    out
}

/// The place text is the file, a colon, the line, a space and the module:
/// the text between the colon and the space is the line's shortest decimal
/// numeral, a non-empty digit string that denotes the line, has no leading
/// zero, and reads back as the line.
pub proof fn law_place_shows_line(file: Seq<char>, line: u32, module: Seq<char>)
    ensures
        ({
            let p = spec_place(file, line as nat, module);
            let t = p.subrange(file.len() + 1 as int, p.len() - module.len() - 1);
            &&& p.len() >= file.len() + module.len() + 3
            &&& p.take(file.len() as int) == file
            &&& p[file.len() as int] == ':'
            &&& p[p.len() - module.len() - 1] == ' '
            &&& p.skip(p.len() - module.len()) == module
            &&& all_digits(t)
            &&& digits_value(t) == line
            &&& (t[0] == '0' ==> t.len() == 1)
            &&& spec_parse_u64(t) == Some(line as u64)
        }),
{
    law_decimal_is_shortest(line as nat);
    law_parse_decimal_roundtrip(line as u64);
    let d = decimal(line as nat);
    let p = spec_place(file, line as nat, module);
    let t = p.subrange(file.len() + 1 as int, p.len() - module.len() - 1);
    assert(t =~= d);
    assert(p.take(file.len() as int) =~= file);
    assert(p.skip(p.len() - module.len()) =~= module);
}

/// With neither variable set, the root logger writes terminal text and
/// keeps records at `Info` and above.
pub proof fn law_unset_variables_give_defaults()
    ensures
        spec_min_log_level(None) == LogLevel::Info,
        !spec_use_json(None),
{
}

/// Setting the level variable to the decimal number of a level selects
/// exactly that level.
pub proof fn law_level_number_selects_level(l: LogLevel)
    ensures
        spec_min_log_level(Some(decimal(level_number(l)))) == l,
{
    law_parse_decimal_roundtrip(level_number(l) as u64);
    law_level_number_roundtrip(l, level_number(l));
}

/// A level other than the default is selected only by a text that reads as
/// a number whose machine-word value is that level's number.
pub proof fn law_only_level_numbers_select(text: Seq<char>, l: LogLevel)
    requires
        l != default_level(),
        spec_min_log_level(Some(text)) == l,
    ensures
        spec_parse_u64(text) matches Some(p) && (p as usize) as nat == level_number(l),
{
    law_level_number_roundtrip(l, level_number(l));
    match spec_parse_u64(text) {
        Some(p) => {
            law_level_number_roundtrip(l, (p as usize) as nat);
        },
        None => {},
    }
}

} // verus!
