//! The configuration of the stand-in host: JSON values under their keys.

use serde_json::Value;
use vstd::prelude::*;

use crate::abi::mpl_result_t;
use crate::json::{json_quote, json_u64};
use crate::text::decimal;

verus! {

/// `serde_json::Value`: a JSON value.
#[verifier::external_type_specification]
#[verifier::external_body]
pub struct ExValue(serde_json::Value);

/// `serde_json::Map`: the members of a JSON object.
#[verifier::external_type_specification]
#[verifier::external_body]
#[verifier::reject_recursive_types(K)]
#[verifier::reject_recursive_types(V)]
pub struct ExMap<K, V>(serde_json::Map<K, V>);

/// The compact JSON text of a value, as `serde_json` writes it.
pub uninterp spec fn text_of(value: serde_json::Value) -> Seq<char>;

/// The members of a JSON object: the compact text of each value under its key.
pub uninterp spec fn entries_of(
    map: serde_json::Map<String, serde_json::Value>,
) -> Map<Seq<char>, Seq<char>>;

/// The compact text of the value that a JSON text stands for, as `serde_json`
/// reads it; nothing where the text is no JSON.
pub uninterp spec fn compact_json(s: Seq<char>) -> Option<Seq<char>>;

/// The members of the JSON object that a text stands for, as `serde_json` reads it;
/// nothing where the text is no JSON object.
pub uninterp spec fn object_entries(s: Seq<char>) -> Option<Map<Seq<char>, Seq<char>>>;

/// The text of a JSON object over several lines, as `serde_json` writes it.
pub uninterp spec fn pretty_json(entries: Map<Seq<char>, Seq<char>>) -> Seq<char>;

pub open spec fn no_settings() -> Map<Seq<char>, Seq<char>> {
    Map::empty()
}

/// `serde_json::from_str::<Value>`; an error is `None`.
#[verifier::external_body]
fn parse_value(s: &str) -> (v: Option<Value>)
    ensures
        match v {
            Some(value) => compact_json(s@) == Some(text_of(value)),
            None => compact_json(s@) is None,
        },
{
    serde_json::from_str::<Value>(s).ok()
}

/// `serde_json::from_str::<serde_json::Map<String, Value>>`; an error is `None`.
#[verifier::external_body]
fn parse_object(s: &str) -> (v: Option<serde_json::Map<String, Value>>)
    ensures
        match v {
            Some(map) => object_entries(s@) == Some(entries_of(map)),
            None => object_entries(s@) is None,
        },
{
    serde_json::from_str::<serde_json::Map<String, Value>>(s).ok()
}

/// `to_string` of a `serde_json::Value`: its compact text.
#[verifier::external_body]
fn value_text(value: &Value) -> (s: String)
    ensures
        s@ == text_of(*value),
{
    value.to_string()
}

/// `serde_json::Value::as_u64`: the number, where the value is an integer without a
/// sign. Such an integer is written as its digits, and no other value is: a
/// floating-point number has a point or an exponent.
#[verifier::external_body]
fn value_u64(value: &Value) -> (n: Option<u64>)
    ensures
        n == json_u64(text_of(*value)),
{
    value.as_u64()
}

/// `serde_json::Value::from` a string: its text is the quoted string.
#[verifier::external_body]
fn string_value(s: &str) -> (value: Value)
    ensures
        text_of(value) == json_quote(s@),
{
    Value::from(s)
}

/// `serde_json::Value::from` a Boolean: its text is `true` or `false`.
#[verifier::external_body]
fn bool_value(b: bool) -> (value: Value)
    ensures
        text_of(value) == (if b {
            "true"@
        } else {
            "false"@
        }),
{
    Value::from(b)
}

/// `serde_json::Value::from` a `u64`: its text is the number in decimal.
#[verifier::external_body]
fn number_value(n: u64) -> (value: Value)
    ensures
        text_of(value) == decimal(n as nat),
{
    Value::from(n)
}

/// `serde_json::to_string_pretty` of a JSON object, which writes the members in the
/// order of their keys. Writing into memory does not fail.
#[verifier::external_body]
fn object_text(map: &serde_json::Map<String, Value>) -> (v: Option<String>)
    ensures
        v is Some,
        v->Some_0@ == pretty_json(entries_of(*map)),
{
    serde_json::to_string_pretty(map).ok()
}

/// `serde_json::Map::new`: no members.
#[verifier::external_body]
fn empty_object() -> (object: serde_json::Map<String, Value>)
    ensures
        entries_of(object) == no_settings(),
{
    serde_json::Map::new()
}

/// `serde_json::Map::insert`: the key has the value, and the other members stay.
#[verifier::external_body]
fn insert(map: &mut serde_json::Map<String, Value>, key: &str, value: Value)
    ensures
        entries_of(*final(map)) == entries_of(*old(map)).insert(key@, text_of(value)),
{
    map.insert(key.to_owned(), value);
}

/// `serde_json::Map::get`: the value under a key.
#[verifier::external_body]
fn get<'a>(map: &'a serde_json::Map<String, Value>, key: &str) -> (v: Option<&'a Value>)
    ensures
        v is Some <==> entries_of(*map).contains_key(key@),
        v is Some ==> text_of(*v->Some_0) == entries_of(*map)[key@],
{
    map.get(key)
}

/// The settings that a host has which stored none yet.
pub open spec fn default_settings() -> Map<Seq<char>, Seq<char>> {
    no_settings()
        .insert("theme"@, json_quote("ring.slint"@))
        .insert("visible"@, "true"@)
        .insert("updateMs"@, decimal(100))
}

/// The settings after a JSON text was written under a key.
pub open spec fn after_write(
    settings: Map<Seq<char>, Seq<char>>,
    key: Seq<char>,
    json: Seq<char>,
) -> Map<Seq<char>, Seq<char>> {
    match compact_json(json) {
        Some(text) => settings.insert(key, text),
        None => settings,
    }
}

/// What a read of a key gives.
pub open spec fn read_of(settings: Map<Seq<char>, Seq<char>>, key: Seq<char>) -> Option<Seq<char>> {
    if settings.contains_key(key) {
        Some(settings[key])
    } else {
        None
    }
}

/// The settings in a stored text.
pub open spec fn settings_in(stored: Option<Seq<char>>) -> Map<Seq<char>, Seq<char>> {
    match stored {
        Some(s) => match object_entries(s) {
            Some(entries) => entries,
            None => default_settings(),
        },
        None => default_settings(),
    }
}

/// The settings with another theme.
pub open spec fn with_theme(
    settings: Map<Seq<char>, Seq<char>>,
    name: Seq<char>,
) -> Map<Seq<char>, Seq<char>> {
    settings.insert("theme"@, json_quote(name))
}

/// The answer to a write.
pub open spec fn write_code(json: Seq<char>) -> mpl_result_t {
    if compact_json(json) is Some {
        mpl_result_t::MPL_OK
    } else {
        mpl_result_t::MPL_ERR_INVALID_ARG
    }
}

/// The time between two ticks that some settings name.
pub open spec fn update_in(settings: Map<Seq<char>, Seq<char>>) -> Option<u64> {
    match read_of(settings, "updateMs"@) {
        Some(t) => json_u64(t),
        None => None,
    }
}

/// The settings that the host keeps.
pub struct Store {
    map: serde_json::Map<String, Value>,
}

impl View for Store {
    type V = Map<Seq<char>, Seq<char>>;

    closed spec fn view(&self) -> Map<Seq<char>, Seq<char>> {
        entries_of(self.map)
    }
}

impl Store {
    /// The settings in a stored text, or the ones to start with where there is none
    /// or it is no JSON object.
    pub fn open(stored: Option<&str>) -> (store: Store)
        ensures
            store@ == settings_in(
                match stored {
                    Some(s) => Some(s@),
                    None => None,
                },
            ),
            store@ == (match stored {
                Some(s) => match object_entries(s@) {
                    Some(entries) => entries,
                    None => default_settings(),
                },
                None => default_settings(),
            }),
    {
        match stored {
            Some(s) => match parse_object(s) {
                Some(map) => Store { map },
                None => Store::fresh(),
            },
            None => Store::fresh(),
        }
    }

    /// The settings to start with.
    fn fresh() -> (store: Store)
        ensures
            store@ == default_settings(),
    {
        let mut map = empty_object();
        insert(&mut map, "theme", string_value("ring.slint"));
        insert(&mut map, "visible", bool_value(true));
        insert(&mut map, "updateMs", number_value(100));
        Store { map }
    }

    /// The text under a key, for the plugin's `get_config`.
    pub fn get_config(&self, key: &str) -> (text: Option<String>)
        ensures
            match text {
                Some(t) => read_of(self@, key@) == Some(t@),
                None => read_of(self@, key@) is None,
            },
    {
        match get(&self.map, key) {
            Some(value) => Some(value_text(value)),
            None => None,
        }
    }

    /// Keeps a JSON text under a key, for the plugin's `set_config`. What is no JSON
    /// is refused.
    pub fn set_config(&mut self, key: &str, json: &str) -> (code: mpl_result_t)
        ensures
            final(self)@ == after_write(old(self)@, key@, json@),
            code == write_code(json@),
            code == (if compact_json(json@) is Some {
                mpl_result_t::MPL_OK
            } else {
                mpl_result_t::MPL_ERR_INVALID_ARG
            }),
    {
        match parse_value(json) {
            Some(value) => {
                insert(&mut self.map, key, value);
                mpl_result_t::MPL_OK
            },
            None => mpl_result_t::MPL_ERR_INVALID_ARG,
        }
    }

    /// Chooses a theme, as the panel does.
    pub fn choose_theme(&mut self, name: &str)
        ensures
            final(self)@ == with_theme(old(self)@, name@),
            final(self)@ == old(self)@.insert("theme"@, json_quote(name@)),
    {
        insert(&mut self.map, "theme", string_value(name));
    }

    /// The text to store the settings as.
    pub fn stored_text(&self) -> (text: String)
        ensures
            text@ == pretty_json(self@),
    {
        match object_text(&self.map) {
            Some(text) => text,
            None => "{}".to_owned(),
        }
    }

    /// The time between two ticks that the settings name.
    pub fn update_ms(&self) -> (ms: Option<u64>)
        ensures
            ms == update_in(self@),
            ms == (match read_of(self@, "updateMs"@) {
                Some(t) => json_u64(t),
                None => None,
            }),
    {
        match get(&self.map, "updateMs") {
            Some(value) => value_u64(value),
            None => None,
        }
    }
}

/// A read gives back what the last accepted write of that key wrote, in its compact
/// form; other keys are as before, and a refused write changes nothing.
pub proof fn law_settings_are_read_back(
    settings: Map<Seq<char>, Seq<char>>,
    key: Seq<char>,
    json: Seq<char>,
    other: Seq<char>,
)
    ensures
        ({
            let next = after_write(settings, key, json);
            &&& compact_json(json) is Some ==> read_of(next, key) == compact_json(json)
            &&& compact_json(json) is None ==> next == settings
            &&& other != key ==> read_of(next, other) == read_of(settings, other)
        }),
{
}

} // verus!
