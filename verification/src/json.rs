//! JSON values as the protocol exchanges them. Reading and writing JSON text
//! is done by `serde_json`; what is read from a value is verified here.

use crate::text::{parse_i32, parse_unsigned, signed_of, str_eq, to_chars, unsigned_of};
use vstd::prelude::*;

verus! {

/// A JSON value. A number is kept as the numeral that writes it.
#[derive(Debug)]
pub enum Json {
    Null,
    Bool(bool),
    Number(String),
    Str(String),
    Array(Vec<Json>),
    Object(Vec<(String, Json)>),
}

/// A JSON value as `serde_json` holds it. It only passes between the two
/// conversions below and the calls that read and write text.
#[verifier::external_type_specification]
#[verifier::external_body]
pub struct ExJsonValue(serde_json::Value);

/// The value that JSON text stands for; nothing where the text is not JSON.
pub uninterp spec fn parsed_json(text: Seq<char>) -> Option<Json>;

/// The text that writes a JSON value; nothing where it cannot be written.
pub uninterp spec fn json_text(value: Json) -> Option<Seq<char>>;

/// What a `serde_json` value holds, as a [`Json`].
pub uninterp spec fn value_json(value: serde_json::Value) -> Json;

/// The text that `serde_json` writes for a value of its own.
pub uninterp spec fn value_text(value: serde_json::Value) -> Option<Seq<char>>;

/// Reads JSON text into a `serde_json` value.
///
/// Trusted: calls `serde_json::from_str` for a `serde_json::Value`, which
/// parses the whole text as one JSON value or fails. The value is a function
/// of the text alone; on failure the error's message is handed out.
#[verifier::external_body]
fn parse_value(text: &str) -> (out: Result<serde_json::Value, String>)
    ensures
        out is Ok <==> parsed_json(text@) is Some,
        out matches Ok(value) ==> parsed_json(text@) == Some(value_json(value)),
{
    match serde_json::from_str::<serde_json::Value>(text) {
        Ok(value) => Ok(value),
        Err(error) => Err(error.to_string()),
    }
}

/// Turns a `serde_json` value into a [`Json`], variant by variant. A number
/// becomes the numeral that `serde_json` prints for it.
///
/// Trusted: the value is opaque to the verifier; what comes out is what it
/// holds.
#[verifier::external_body]
fn json_from_value(value: serde_json::Value) -> (json: Json)
    ensures
        json == value_json(value),
{
    match value {
        serde_json::Value::Null => Json::Null,
        serde_json::Value::Bool(b) => Json::Bool(b),
        serde_json::Value::Number(n) => Json::Number(n.to_string()),
        serde_json::Value::String(s) => Json::Str(s),
        serde_json::Value::Array(items) => Json::Array(
            items.into_iter().map(json_from_value).collect(),
        ),
        serde_json::Value::Object(entries) => Json::Object(
            entries.into_iter().map(|(k, v)| (k, json_from_value(v))).collect(),
        ),
    }
}

/// Turns a [`Json`] into a `serde_json` value, variant by variant. A numeral
/// that `serde_json` does not read as a number becomes null.
///
/// Trusted: the value is opaque to the verifier; the text that
/// `serde_json` writes for it is the text of the [`Json`].
#[verifier::external_body]
fn value_from_json(json: &Json) -> (value: serde_json::Value)
    ensures
        value_text(value) == json_text(*json),
{
    match json {
        Json::Null => serde_json::Value::Null,
        Json::Bool(b) => serde_json::Value::Bool(*b),
        Json::Number(n) => n.parse::<serde_json::Number>().map(serde_json::Value::Number).unwrap_or(
            serde_json::Value::Null,
        ),
        Json::Str(s) => serde_json::Value::String(s.clone()),
        Json::Array(items) => serde_json::Value::Array(items.iter().map(value_from_json).collect()),
        Json::Object(entries) => serde_json::Value::Object(
            entries.iter().map(|(k, v)| (k.clone(), value_from_json(v))).collect(),
        ),
    }
}

/// Writes a `serde_json` value as text.
///
/// Trusted: calls `serde_json::to_string`, which writes compact JSON. The
/// text is a function of the value alone; on failure the error's message is
/// handed out.
#[verifier::external_body]
fn write_value(value: &serde_json::Value) -> (out: Result<String, String>)
    ensures
        out is Ok <==> value_text(*value) is Some,
        out matches Ok(text) ==> value_text(*value) == Some(text@),
{
    match serde_json::to_string(value) {
        Ok(text) => Ok(text),
        Err(error) => Err(error.to_string()),
    }
}

/// Reads JSON text: the value that it stands for, or the parser's message
/// where it is no JSON.
pub fn parse_json(text: &str) -> (out: Result<Json, String>)
    ensures
        out is Ok <==> parsed_json(text@) is Some,
        out matches Ok(value) ==> parsed_json(text@) == Some(value),
{
    match parse_value(text) {
        Ok(value) => Ok(json_from_value(value)),
        Err(detail) => Err(detail),
    }
}

/// Writes a JSON value as text, or the writer's message where it cannot be
/// written.
pub fn write_json(value: &Json) -> (out: Result<String, String>)
    ensures
        out is Ok <==> json_text(*value) is Some,
        out matches Ok(text) ==> json_text(*value) == Some(text@),
{
    let converted = value_from_json(value);
    write_value(&converted)
}

/// The value of the first entry called `name`.
pub open spec fn entry_named(entries: Seq<(String, Json)>, name: Seq<char>) -> Option<Json>
    decreases entries.len(),
{
    if entries.len() == 0 {
        None
    } else if entries[0].0@ == name {
        Some(entries[0].1)
    } else {
        entry_named(entries.drop_first(), name)
    }
}

impl Json {
    /// The member `name` of an object.
    pub open spec fn field(self, name: Seq<char>) -> Option<Json> {
        match self {
            Json::Object(entries) => entry_named(entries@, name),
            _ => None,
        }
    }

    /// The characters of a string.
    pub open spec fn text(self) -> Option<Seq<char>> {
        match self {
            Json::Str(s) => Some(s@),
            _ => None,
        }
    }

    /// The number that a non-negative whole numeral of at most `max` writes.
    pub open spec fn unsigned(self, max: nat) -> Option<nat> {
        match self {
            Json::Number(n) => unsigned_of(n@, max),
            _ => None,
        }
    }

    /// The truth value of a boolean.
    pub open spec fn flag(self) -> Option<bool> {
        match self {
            Json::Bool(b) => Some(b),
            _ => None,
        }
    }

    /// The items of an array.
    pub open spec fn items(self) -> Option<Seq<Json>> {
        match self {
            Json::Array(items) => Some(items@),
            _ => None,
        }
    }

    /// The value is absent: the member is missing, or null.
    pub open spec fn absent(value: Option<Json>) -> bool {
        value is None || value == Some(Json::Null)
    }

    /// The string member `name`, which must be there.
    pub open spec fn text_field(self, name: Seq<char>) -> Option<Seq<char>> {
        match self.field(name) {
            Some(value) => value.text(),
            None => None,
        }
    }

    /// The string member `name`, which may be absent: nothing where it is
    /// there but no string.
    pub open spec fn opt_text_field(self, name: Seq<char>) -> Option<Option<Seq<char>>> {
        if Self::absent(self.field(name)) {
            Some(None)
        } else {
            match self.field(name)->0.text() {
                Some(text) => Some(Some(text)),
                None => None,
            }
        }
    }

    /// The unsigned member `name`, which must be there.
    pub open spec fn unsigned_field(self, name: Seq<char>, max: nat) -> Option<nat> {
        match self.field(name) {
            Some(value) => value.unsigned(max),
            None => None,
        }
    }

    /// The unsigned member `name`, which may be absent.
    pub open spec fn opt_unsigned_field(self, name: Seq<char>, max: nat) -> Option<Option<nat>> {
        if Self::absent(self.field(name)) {
            Some(None)
        } else {
            match self.field(name)->0.unsigned(max) {
                Some(n) => Some(Some(n)),
                None => None,
            }
        }
    }

    /// The boolean member `name`, which may be absent.
    pub open spec fn opt_flag_field(self, name: Seq<char>) -> Option<Option<bool>> {
        if Self::absent(self.field(name)) {
            Some(None)
        } else {
            match self.field(name)->0.flag() {
                Some(b) => Some(Some(b)),
                None => None,
            }
        }
    }

    /// The 32-bit signed member `name`, which must be there.
    pub open spec fn i32_field(self, name: Seq<char>) -> Option<int> {
        match self.field(name) {
            Some(Json::Number(n)) => signed_of(n@, 2147483648, 2147483647),
            _ => None,
        }
    }

    /// The 32-bit signed member `name`, which must be there.
    pub fn get_i32(&self, name: &str) -> (out: Option<i32>)
        ensures
            match out {
                Some(n) => self.i32_field(name@) == Some(n as int),
                None => self.i32_field(name@) is None,
            },
    {
        match self.get(name) {
            Some(Json::Number(n)) => parse_i32(n.as_str()),
            _ => None,
        }
    }

    /// Takes the member `name` out of an object.
    pub fn take(self, name: &str) -> (out: Option<Json>)
        ensures
            out == self.field(name@),
    {
        match self {
            Json::Object(entries) => {
                let mut entries = entries;
                let ghost all = entries@;
                let mut k: usize = 0;
                proof {
                    assert(all.subrange(0, all.len() as int) =~= all);
                }
                while k < entries.len()
                    invariant
                        k <= entries@.len(),
                        entries@ == all,
                        self.field(name@) == entry_named(all, name@),
                        entry_named(all, name@) == entry_named(
                            all.subrange(k as int, all.len() as int),
                            name@,
                        ),
                    decreases entries@.len() - k,
                {
                    let ghost rest = all.subrange(k as int, all.len() as int);
                    proof {
                        assert(rest.len() > 0);
                        assert(rest[0] == all[k as int]);
                        assert(rest.drop_first() =~= all.subrange(k + 1, all.len() as int));
                    }
                    if str_eq(entries[k].0.as_str(), name) {
                        let entry = entries.swap_remove(k);
                        return Some(entry.1);
                    }
                    k += 1;
                }
                proof {
                    assert(all.subrange(k as int, all.len() as int).len() == 0);
                }
                None
            },
            _ => None,
        }
    }

    /// The member `name` of an object.
    pub fn get<'a>(&'a self, name: &str) -> (found: Option<&'a Json>)
        ensures
            match found {
                Some(value) => self.field(name@) == Some(*value),
                None => self.field(name@) is None,
            },
    {
        match self {
            Json::Object(entries) => {
                let mut k: usize = 0;
                proof {
                    assert(entries@.subrange(0, entries@.len() as int) =~= entries@);
                }
                while k < entries.len()
                    invariant
                        k <= entries@.len(),
                        self.field(name@) == entry_named(entries@, name@),
                        entry_named(entries@, name@) == entry_named(
                            entries@.subrange(k as int, entries@.len() as int),
                            name@,
                        ),
                    decreases entries@.len() - k,
                {
                    let ghost rest = entries@.subrange(k as int, entries@.len() as int);
                    proof {
                        assert(rest.len() > 0);
                        assert(rest[0] == entries@[k as int]);
                        assert(rest.drop_first() =~= entries@.subrange(
                            k + 1,
                            entries@.len() as int,
                        ));
                    }
                    if str_eq(entries[k].0.as_str(), name) {
                        return Some(&entries[k].1);
                    }
                    k += 1;
                }
                proof {
                    assert(entries@.subrange(k as int, entries@.len() as int).len() == 0);
                }
                None
            },
            _ => None,
        }
    }

    /// Whether the value is null.
    pub fn is_null(&self) -> (null: bool)
        ensures
            null == (*self == Json::Null),
    {
        match self {
            Json::Null => true,
            _ => false,
        }
    }

    /// The string member `name`, which must be there.
    pub fn get_text(&self, name: &str) -> (out: Option<String>)
        ensures
            crate::chat_info::opt_view(out) == self.text_field(name@),
    {
        match self.get(name) {
            Some(Json::Str(s)) => Some(s.clone()),
            _ => None,
        }
    }

    /// The string member `name`, which may be absent. The outer `None` says
    /// that it is there but no string.
    pub fn get_opt_text(&self, name: &str) -> (out: Option<Option<String>>)
        ensures
            match out {
                Some(text) => self.opt_text_field(name@) == Some(crate::chat_info::opt_view(text)),
                None => self.opt_text_field(name@) is None,
            },
    {
        match self.get(name) {
            None => Some(None),
            Some(Json::Null) => Some(None),
            Some(Json::Str(s)) => Some(Some(s.clone())),
            Some(_) => None,
        }
    }

    /// The unsigned member `name` of at most `max`, which must be there.
    pub fn get_unsigned(&self, name: &str, max: u64) -> (out: Option<u64>)
        ensures
            match out {
                Some(n) => self.unsigned_field(name@, max as nat) == Some(n as nat),
                None => self.unsigned_field(name@, max as nat) is None,
            },
    {
        match self.get(name) {
            Some(Json::Number(n)) => {
                let digits = to_chars(n.as_str());
                proof {
                    assert(digits@.subrange(0, digits@.len() as int) =~= digits@);
                }
                parse_unsigned(&digits, 0, max)
            },
            _ => None,
        }
    }

    /// The unsigned member `name` of at most `max`, which may be absent.
    pub fn get_opt_unsigned(&self, name: &str, max: u64) -> (out: Option<Option<u64>>)
        ensures
            match out {
                Some(Some(n)) => self.opt_unsigned_field(name@, max as nat) == Some(
                    Some(n as nat),
                ),
                Some(None) => self.opt_unsigned_field(name@, max as nat) == Some(None::<nat>),
                None => self.opt_unsigned_field(name@, max as nat) is None,
            },
    {
        match self.get(name) {
            None => Some(None),
            Some(Json::Null) => Some(None),
            Some(Json::Number(n)) => {
                let digits = to_chars(n.as_str());
                proof {
                    assert(digits@.subrange(0, digits@.len() as int) =~= digits@);
                }
                match parse_unsigned(&digits, 0, max) {
                    Some(n) => Some(Some(n)),
                    None => None,
                }
            },
            Some(_) => None,
        }
    }

    /// The boolean member `name`, which may be absent.
    pub fn get_opt_flag(&self, name: &str) -> (out: Option<Option<bool>>)
        ensures
            out == self.opt_flag_field(name@),
    {
        match self.get(name) {
            None => Some(None),
            Some(Json::Null) => Some(None),
            Some(Json::Bool(b)) => Some(Some(*b)),
            Some(_) => None,
        }
    }
}

/// A type whose values are read from JSON. `decodes` says which value a
/// JSON value stands for; it holds of at most one value up to the characters
/// of its strings.
pub trait FromJson: Sized {
    /// The JSON value stands for `value`.
    spec fn decodes(json: Json, value: Self) -> bool;

    /// Reads a value: the one that the JSON stands for, or nothing where it
    /// stands for none.
    fn from_json(json: &Json) -> (out: Option<Self>)
        ensures
            match out {
                Some(value) => Self::decodes(*json, value),
                None => forall|value: Self| !Self::decodes(*json, value),
            },
    ;
}

/// Each item stands for the value at its place.
pub open spec fn list_decodes<T: FromJson>(items: Seq<Json>, values: Seq<T>) -> bool {
    &&& items.len() == values.len()
    &&& forall|i: int| 0 <= i < items.len() ==> #[trigger] T::decodes(items[i], values[i])
}

/// The member `name` is an array whose items stand for `values`.
pub open spec fn field_list_decodes<T: FromJson>(json: Json, name: Seq<char>, values: Seq<T>) -> bool {
    json.field(name) matches Some(Json::Array(items)) && list_decodes(items@, values)
}

/// The member `name` stands for `value`.
pub open spec fn field_decodes<T: FromJson>(json: Json, name: Seq<char>, value: T) -> bool {
    json.field(name) matches Some(member) && T::decodes(member, value)
}

/// The member `name` is absent and `value` is nothing, or it stands for what
/// `value` holds.
pub open spec fn opt_field_decodes<T: FromJson>(json: Json, name: Seq<char>, value: Option<T>) -> bool {
    if Json::absent(json.field(name)) {
        value is None
    } else {
        value matches Some(inner) && T::decodes(json.field(name)->0, inner)
    }
}

/// Reads the items of an array.
pub fn decode_list<T: FromJson>(items: &Vec<Json>) -> (out: Option<Vec<T>>)
    ensures
        match out {
            Some(values) => list_decodes(items@, values@),
            None => forall|values: Seq<T>| !list_decodes(items@, values),
        },
{
    let mut out: Vec<T> = Vec::new();
    let mut k: usize = 0;
    while k < items.len()
        invariant
            k <= items@.len(),
            out@.len() == k,
            forall|i: int| 0 <= i < k ==> #[trigger] T::decodes(items@[i], out@[i]),
        decreases items@.len() - k,
    {
        match T::from_json(&items[k]) {
            Some(value) => {
                out.push(value);
            },
            None => {
                proof {
                    assert forall|values: Seq<T>| !list_decodes(items@, values) by {
                        if list_decodes(items@, values) {
                            assert(T::decodes(items@[k as int], values[k as int]));
                        }
                    }
                }
                return None;
            },
        }
        k += 1;
    }
    Some(out)
}

/// Reads the array member `name`.
pub fn get_list<T: FromJson>(json: &Json, name: &str) -> (out: Option<Vec<T>>)
    ensures
        match out {
            Some(values) => field_list_decodes(*json, name@, values@),
            None => forall|values: Seq<T>| !field_list_decodes(*json, name@, values),
        },
{
    match json.get(name) {
        Some(Json::Array(items)) => decode_list(items),
        _ => None,
    }
}

/// Reads the member `name`, which must be there.
pub fn get_member<T: FromJson>(json: &Json, name: &str) -> (out: Option<T>)
    ensures
        match out {
            Some(value) => field_decodes(*json, name@, value),
            None => forall|value: T| !field_decodes(*json, name@, value),
        },
{
    match json.get(name) {
        Some(member) => T::from_json(member),
        None => None,
    }
}

/// Reads the member `name`, which may be absent. The outer `None` says that
/// it is there but stands for no value.
pub fn get_opt_member<T: FromJson>(json: &Json, name: &str) -> (out: Option<Option<T>>)
    ensures
        match out {
            Some(value) => opt_field_decodes(*json, name@, value),
            None => forall|value: Option<T>| !opt_field_decodes(*json, name@, value),
        },
{
    match json.get(name) {
        None => Some(None),
        Some(member) => {
            if member.is_null() {
                Some(None)
            } else {
                match T::from_json(member) {
                    Some(value) => Some(Some(value)),
                    None => None,
                }
            }
        },
    }
}

/// A number as an optional natural number.
pub open spec fn opt_nat(n: Option<u64>) -> Option<nat> {
    match n {
        Some(n) => Some(n as nat),
        None => None,
    }
}

/// A 32-bit number as an optional natural number.
pub open spec fn opt_nat32(n: Option<u32>) -> Option<nat> {
    match n {
        Some(n) => Some(n as nat),
        None => None,
    }
}

} // verus!
