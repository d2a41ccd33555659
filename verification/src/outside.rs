//! What this library takes on trust from the crates it calls. Nothing here is
//! proved: each contract restates what the called function's source shows.

use vstd::prelude::*;

verus! {

/// What `humantime::parse_duration` makes of a text: the whole seconds and
/// the nanoseconds beyond them of the duration it reads, or `None` where it
/// reports an error.
pub uninterp spec fn parsed_duration(text: Seq<char>) -> Option<(u64, u32)>;

/// The decimal digits `0` to `9`.
pub open spec fn is_digit(c: char) -> bool {
    '0' <= c <= '9'
}

/// How many decimal digits a text holds.
pub open spec fn digit_count(text: Seq<char>) -> nat
    decreases text.len(),
{
    if text.len() == 0 {
        0
    } else {
        digit_count(text.drop_last()) + if is_digit(text.last()) {
            1nat
        } else {
            0nat
        }
    }
}

/// The most digits a text may hold to be handed to the duration parser.
pub const MAX_DURATION_DIGITS: usize = 11;

/// Calls `humantime::parse_duration`.
///
/// The parser sums the spans it reads with checked arithmetic and reports an
/// overflow as an error, with one exception: where the seconds reach
/// `u64::MAX` while the nanoseconds come to exactly one second, it panics.
/// Every span is a number written in the text times at most 31 557 600
/// seconds, so a text of at most eleven digits stays far below that, which
/// is what `requires` asks. The result is a function of the text alone; its
/// sub-second part is below one second, as `Duration::subsec_nanos` promises.
#[verifier::external_body]
pub(crate) fn parse_duration(text: &str) -> (parsed: Option<(u64, u32)>)
    requires
        digit_count(text@) <= MAX_DURATION_DIGITS,
    ensures
        parsed == parsed_duration(text@),
        parsed matches Some((_, nanos)) ==> nanos < 1_000_000_000,
{
    match humantime::parse_duration(text) {
        Ok(duration) => Some((duration.as_secs(), duration.subsec_nanos())),
        Err(_) => None,
    }
}

/// `toml::map::Map`, the table of a TOML document; `toml::Table` is this type
/// with `String` keys and `toml::Value` values.
#[verifier::external_type_specification]
#[verifier::external_body]
#[verifier::reject_recursive_types(K)]
#[verifier::reject_recursive_types(V)]
pub struct ExTomlMap<K, V>(toml::map::Map<K, V>);

/// `toml::Value`, one value of a TOML document.
#[verifier::external_type_specification]
#[verifier::external_body]
pub struct ExTomlValue(toml::Value);

/// The entries of a table whose value is a string, by key.
pub uninterp spec fn table_strings(
    table: toml::map::Map<String, toml::Value>,
) -> Map<Seq<char>, Seq<char>>;

/// What `toml::from_str` makes of a text read as a table: the table's string
/// entries, or `None` where the text is no TOML document.
pub uninterp spec fn parsed_table(text: Seq<char>) -> Option<Map<Seq<char>, Seq<char>>>;

/// Calls `toml::from_str` for a `toml::Table`. The outcome is a function of
/// the text alone; an error is handed on as `None`.
#[verifier::external_body]
pub(crate) fn parse_table(text: &str) -> (table: Option<toml::map::Map<String, toml::Value>>)
    ensures
        table matches Some(t) ==> parsed_table(text@) == Some(table_strings(t)),
        table is None ==> parsed_table(text@) is None,
{
    match toml::from_str::<toml::Table>(text) {
        Ok(table) => Some(table),
        Err(_) => None,
    }
}

/// Calls `toml::map::Map::get`: the entry at `key`, handed out where it is
/// a string and `None` where the key is absent or holds another kind of value.
#[verifier::external_body]
pub(crate) fn table_string(
    table: &toml::map::Map<String, toml::Value>,
    key: &str,
) -> (value: Option<String>)
    ensures
        value matches Some(v) ==> table_strings(*table).contains_key(key@),
        value matches Some(v) ==> table_strings(*table)[key@] == v@,
        value is None ==> !table_strings(*table).contains_key(key@),
{
    match table.get(key) {
        Some(toml::Value::String(value)) => Some(value.clone()),
        _ => None,
    }
}

/// What `toml::to_string` writes for a table of one entry whose value is a
/// string, or `None` where it reports an error.
pub uninterp spec fn entry_text(key: Seq<char>, value: Seq<char>) -> Option<Seq<char>>;

/// Calls `toml::to_string` on a table that holds `value` as a string at
/// `key` and nothing else. The outcome is a function of the two texts alone;
/// an error is handed on as `None`.
#[verifier::external_body]
pub(crate) fn write_entry(key: &str, value: &str) -> (text: Option<String>)
    ensures
        text matches Some(t) ==> entry_text(key@, value@) == Some(t@),
        text is None ==> entry_text(key@, value@) is None,
{
    let mut table = toml::Table::new();
    table.insert(key.to_owned(), toml::Value::String(value.to_owned()));
    match toml::to_string(&table) {
        Ok(text) => Some(text),
        Err(_) => None,
    }
}

/// `std::path::PathBuf`, carried through as it is.
#[verifier::external_type_specification]
#[verifier::external_body]
pub struct ExPathBuf(std::path::PathBuf);

/// Calls `dirs::config_dir`: the user's configuration directory, which
/// depends on the platform and the environment, so nothing is said of it.
#[verifier::external_body]
pub(crate) fn user_config_dir() -> Option<std::path::PathBuf> {
    dirs::config_dir()
}

/// `s2::client::BasinClient`, the handle through which a basin is reached.
#[verifier::external_type_specification]
#[verifier::external_body]
pub struct ExBasinClient(s2::client::BasinClient);

/// `s2::client::ClientError`, the failure that the client reports of a call.
#[verifier::external_type_specification]
#[verifier::external_body]
pub struct ExClientError(s2::client::ClientError);

} // verus!
