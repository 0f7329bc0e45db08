//! The JSON values that the census push service sends, as the library reads them.
use vstd::prelude::*;

verus! {

/// A JSON value. Numbers keep their decimal text; an object keeps its
/// entries in order, and a key is looked up by its first entry.
#[derive(Debug, PartialEq)]
pub enum JsonValue {
    Null,
    Bool(bool),
    Number(String),
    String(String),
    Array(Vec<JsonValue>),
    Object(Vec<(String, JsonValue)>),
}

/// A JSON decoding failure, by the decoder's description.
#[derive(Clone, Debug, PartialEq)]
pub struct JsonError {
    pub message: String,
}

/// `serde_json`'s JSON value type, held opaque.
#[verifier::external_type_specification]
#[verifier::external_body]
pub struct ExSerdeValue(serde_json::Value);

/// What `serde_json` reads from a JSON text: the value, or the
/// description of the error.
pub uninterp spec fn json_text_value(bytes: Seq<u8>) -> Result<JsonValue, JsonError>;

/// A `serde_json::Value` as a [`JsonValue`]: variant for variant, numbers
/// by the text `serde_json` writes for them, object entries in the order
/// of `serde_json`'s map (by key).
#[verifier::external_body]
fn json_value_of(v: serde_json::Value) -> JsonValue {
    match v {
        serde_json::Value::Null => JsonValue::Null,
        serde_json::Value::Bool(b) => JsonValue::Bool(b),
        serde_json::Value::Number(n) => JsonValue::Number(n.to_string()),
        serde_json::Value::String(s) => JsonValue::String(s),
        serde_json::Value::Array(a) => JsonValue::Array(a.into_iter().map(json_value_of).collect()),
        serde_json::Value::Object(m) => JsonValue::Object(
            m.into_iter().map(|(k, x)| (k, json_value_of(x))).collect(),
        ),
    }
}

/// Reads a JSON text with `serde_json::from_slice` as a `serde_json::Value`.
/// Claimed: the result depends on the bytes alone (it is
/// `json_text_value(bytes)`); nothing is claimed of which texts are read.
#[verifier::external_body]
fn json_from_slice(bytes: &[u8]) -> (r: Result<JsonValue, JsonError>)
    ensures
        r == json_text_value(bytes@),
{
    match serde_json::from_slice::<serde_json::Value>(bytes) {
        Ok(v) => Ok(json_value_of(v)),
        Err(e) => Err(JsonError { message: e.to_string() }),
    }
}

/// Reads the JSON text of a push message.
pub fn read_json(bytes: &[u8]) -> (r: Result<JsonValue, JsonError>)
    ensures
        r == json_text_value(bytes@),
{
    json_from_slice(bytes)
}

/// The value of the first entry with key `key`.
pub open spec fn entries_get(entries: Seq<(String, JsonValue)>, key: Seq<char>) -> Option<JsonValue>
    decreases entries.len(),
{
    if entries.len() == 0 {
        None
    } else if entries[0].0@ == key {
        Some(entries[0].1)
    } else {
        entries_get(entries.subrange(1, entries.len() as int), key)
    }
}

/// Whether two texts are equal.
pub fn str_eq(a: &str, b: &str) -> (r: bool)
    ensures
        r == (a@ == b@),
{
    let x = a.to_owned();
    let y = b.to_owned();
    x == y
}

impl JsonValue {
    /// The value of field `key`, if this is an object that has one.
    pub open spec fn field(self, key: Seq<char>) -> Option<JsonValue> {
        match self {
            JsonValue::Object(entries) => entries_get(entries@, key),
            _ => None,
        }
    }

    /// Whether this is a string.
    pub open spec fn is_string(self) -> bool {
        self is String
    }

    /// The text of this value, if it is a string.
    pub open spec fn text(self) -> Option<Seq<char>> {
        match self {
            JsonValue::String(s) => Some(s@),
            _ => None,
        }
    }

    /// The value of field `key`, if this is an object that has one.
    pub fn get(&self, key: &str) -> (r: Option<&JsonValue>)
        ensures
            r is None <==> self.field(key@) is None,
            r matches Some(v) ==> self.field(key@) == Some(*v),
    {
        match self {
            JsonValue::Object(entries) => {
                let mut i: usize = 0;
                assert(entries@.subrange(0, entries@.len() as int) =~= entries@);
                while i < entries.len()
                    invariant
                        0 <= i <= entries@.len(),
                        self.field(key@) == entries_get(entries@, key@),
                        entries_get(entries@, key@) == entries_get(
                            entries@.subrange(i as int, entries@.len() as int),
                            key@,
                        ),
                    decreases entries@.len() - i,
                {
                    let ghost rest = entries@.subrange(i as int, entries@.len() as int);
                    assert(rest.subrange(1, rest.len() as int) =~= entries@.subrange(
                        i + 1,
                        entries@.len() as int,
                    ));
                    assert(rest[0] == entries@[i as int]);
                    if str_eq(entries[i].0.as_str(), key) {
                        return Some(&entries[i].1);
                    }
                    i = i + 1;
                }
                None
            },
            _ => None,
        }
    }

    /// The text of this value, if it is a string.
    pub fn as_str(&self) -> (r: Option<&str>)
        ensures
            r is None <==> self.text() is None,
            r matches Some(s) ==> self.text() == Some(s@),
    {
        match self {
            JsonValue::String(s) => Some(s.as_str()),
            _ => None,
        }
    }
}

} // verus!
