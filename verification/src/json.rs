//! The JSON that the image tool prints, as the library reads it.
//!
//! The text is parsed by `serde_json` and the document converted, one value
//! for one value, into a [`JsonValue`]. Fractional numbers keep no value
//! here: the library only ever reads unsigned integers and texts.

use vstd::prelude::*;
use vstd::string::*;

verus! {

/// A JSON number: an unsigned integer, a negative integer, or a fraction.
#[derive(Debug)]
pub enum JsonNumber {
    Unsigned(u64),
    Negative(i64),
    Fractional,
}

/// A JSON document.
#[derive(Debug)]
pub enum JsonValue {
    Null,
    Bool(bool),
    Number(JsonNumber),
    Text(String),
    List(Vec<JsonValue>),
    Record(Vec<JsonField>),
}

/// One member of a JSON object.
#[derive(Debug)]
pub struct JsonField {
    pub key: String,
    pub value: JsonValue,
}

/// The value of the first member named `key` (a parsed object has one member
/// per name).
pub open spec fn field_lookup(fields: Seq<JsonField>, key: Seq<char>) -> Option<JsonValue>
    decreases fields.len(),
{
    if fields.len() == 0 {
        None
    } else if fields[0].key@ == key {
        Some(fields[0].value)
    } else {
        field_lookup(fields.drop_first(), key)
    }
}

/// `value[key]`: the member `key` of an object; nothing for other values.
pub open spec fn json_member(value: JsonValue, key: Seq<char>) -> Option<JsonValue> {
    match value {
        JsonValue::Record(fields) => field_lookup(fields@, key),
        _ => None,
    }
}

/// The text of a value that is a string.
pub open spec fn json_text(value: Option<JsonValue>) -> Option<Seq<char>> {
    match value {
        Some(JsonValue::Text(s)) => Some(s@),
        _ => None,
    }
}

/// The number of a value that is an unsigned integer.
pub open spec fn json_unsigned(value: Option<JsonValue>) -> Option<u64> {
    match value {
        Some(JsonValue::Number(JsonNumber::Unsigned(n))) => Some(n),
        _ => None,
    }
}

/// `text` when present, `default` otherwise.
pub open spec fn text_or(text: Option<Seq<char>>, default: Seq<char>) -> Seq<char> {
    match text {
        Some(t) => t,
        None => default,
    }
}

proof fn lemma_lookup_step(fields: Seq<JsonField>, i: int, key: Seq<char>)
    requires
        0 <= i < fields.len(),
        fields[i].key@ != key,
    ensures
        field_lookup(fields.subrange(i, fields.len() as int), key)
            == field_lookup(fields.subrange(i + 1, fields.len() as int), key),
{
    assert(fields.subrange(i, fields.len() as int).drop_first() =~= fields.subrange(
        i + 1,
        fields.len() as int,
    ));
}

/// The member `key` of `value` (see [`json_member`]).
pub fn member<'a>(value: &'a JsonValue, key: &str) -> (r: Option<&'a JsonValue>)
    ensures
        match r {
            Some(v) => json_member(*value, key@) == Some(*v),
            None => json_member(*value, key@) is None,
        },
{
    match value {
        JsonValue::Record(fields) => {
            let wanted = String::from_str(key);
            let n = fields.len();
            let mut i: usize = 0;
            assert(fields@.subrange(0, n as int) =~= fields@);
            while i < n
                invariant
                    n == fields@.len(),
                    i <= n,
                    wanted@ == key@,
                    *value == JsonValue::Record(*fields),
                    field_lookup(fields@, key@) == field_lookup(
                        fields@.subrange(i as int, n as int),
                        key@,
                    ),
                decreases n - i,
            {
                if fields[i].key == wanted {
                    assert(fields@.subrange(i as int, n as int)[0] == fields@[i as int]);
                    return Some(&fields[i].value);
                }
                proof {
                    lemma_lookup_step(fields@, i as int, key@);
                }
                i = i + 1;
            }
            None
        },
        _ => None,
    }
}

/// `value[key].as_str()`, copied.
pub fn member_text(value: &JsonValue, key: &str) -> (r: Option<String>)
    ensures
        match r {
            Some(s) => json_text(json_member(*value, key@)) == Some(s@),
            None => json_text(json_member(*value, key@)) is None,
        },
{
    match member(value, key) {
        Some(JsonValue::Text(s)) => Some(s.clone()),
        _ => None,
    }
}

/// `value[key].as_u64()`.
pub fn member_unsigned(value: &JsonValue, key: &str) -> (r: Option<u64>)
    ensures
        r == json_unsigned(json_member(*value, key@)),
{
    match member(value, key) {
        Some(JsonValue::Number(JsonNumber::Unsigned(n))) => Some(*n),
        _ => None,
    }
}

/// `value[key].as_str().unwrap_or(default)`, copied.
pub fn member_text_or(value: &JsonValue, key: &str, default: &str) -> (r: String)
    ensures
        r@ == text_or(json_text(json_member(*value, key@)), default@),
{
    match member_text(value, key) {
        Some(s) => s,
        None => String::from_str(default),
    }
}

/// The document that `serde_json` parses from `text`, converted to a
/// [`JsonValue`]; none when the text is no JSON document.
pub uninterp spec fn json_document(text: Seq<char>) -> Option<JsonValue>;

/// The text of the error `serde_json` reports for `text` read as a document.
pub uninterp spec fn json_document_error(text: Seq<char>) -> Seq<char>;

/// The list that `serde_json` parses from `text` read as a JSON array,
/// converted item by item; none when the text is no JSON array.
pub uninterp spec fn json_list(text: Seq<char>) -> Option<Vec<JsonValue>>;

/// The text of the error `serde_json` reports for `text` read as an array.
pub uninterp spec fn json_list_error(text: Seq<char>) -> Seq<char>;

// A document parsed by `serde_json`, carried into the conversion below.
#[verifier::external_type_specification]
#[verifier::external_body]
pub struct ExSerdeJsonValue(serde_json::Value);

/// Converts a value parsed by `serde_json` into a [`JsonValue`], one value for
/// one value: numbers become unsigned or negative integers when they are
/// integers, and fractions otherwise. Used by the two parse wrappers below.
#[verifier::external_body]
fn json_from_serde(value: serde_json::Value) -> JsonValue {
    match value {
        serde_json::Value::Null => JsonValue::Null,
        serde_json::Value::Bool(b) => JsonValue::Bool(b),
        serde_json::Value::Number(n) => JsonValue::Number(match (n.as_u64(), n.as_i64()) {
            (Some(u), _) => JsonNumber::Unsigned(u),
            (None, Some(i)) => JsonNumber::Negative(i),
            (None, None) => JsonNumber::Fractional,
        }),
        serde_json::Value::String(s) => JsonValue::Text(s),
        serde_json::Value::Array(a) => JsonValue::List(a.into_iter().map(json_from_serde).collect()),
        serde_json::Value::Object(m) => JsonValue::Record(
            m.into_iter().map(|(key, v)| JsonField { key, value: json_from_serde(v) }).collect(),
        ),
    }
}

/// Calls `serde_json::from_str` for a `serde_json::Value` and converts the
/// document (see [`json_from_serde`]); the error is given by its `Display`
/// text. The claim is that the outcome is a function of the text alone.
#[verifier::external_body]
pub fn parse_json_document(text: &str) -> (r: Result<JsonValue, String>)
    ensures
        match r {
            Ok(v) => json_document(text@) == Some(v),
            Err(e) => json_document(text@) is None && e@ == json_document_error(text@),
        },
{
    serde_json::from_str::<serde_json::Value>(text).map(json_from_serde).map_err(|e| e.to_string())
}

/// Calls `serde_json::from_str` for a `Vec<serde_json::Value>` and converts
/// each item (see [`json_from_serde`]); the error is given by its `Display`
/// text. The claim is that the outcome is a function of the text alone.
#[verifier::external_body]
pub fn parse_json_list(text: &str) -> (r: Result<Vec<JsonValue>, String>)
    ensures
        match r {
            Ok(v) => json_list(text@) == Some(v),
            Err(e) => json_list(text@) is None && e@ == json_list_error(text@),
        },
{
    serde_json::from_str::<Vec<serde_json::Value>>(text)
        .map(|items| items.into_iter().map(json_from_serde).collect())
        .map_err(|e| e.to_string())
}

/// The text that `String::from_utf8_lossy` decodes from `bytes`.
pub uninterp spec fn lossy_text(bytes: Seq<u8>) -> Seq<char>;

/// Calls `String::from_utf8_lossy`: the bytes decoded as UTF-8, with each
/// invalid sequence replaced by U+FFFD; the result is named by
/// [`lossy_text`].
#[verifier::external_body]
pub fn decode_lossy(bytes: &[u8]) -> (r: String)
    ensures
        r@ == lossy_text(bytes@),
{
    String::from_utf8_lossy(bytes).into_owned()
}

} // verus!
