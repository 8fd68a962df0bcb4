//! The parsed JSON document, as a type of the library's own.
//!
//! `serde_json` does the parsing, once, behind one trusted wrapper; the
//! wrapper carries the parsed tree over into [`JsonValue`], whose contents
//! Verus can see. Everything downstream of the parse — object lookup,
//! field typing, the decoding of the provider's response shapes — is
//! verified code over this model, with exact contracts stated against the
//! named parse result [`json_doc`].

use vstd::prelude::*;

verus! {

/// A JSON number, reduced to what the response decoders read: either a
/// non-negative integer that fits `u64`, or some other number (negative
/// or fractional), whose value no decoder looks at.
#[derive(Debug, Clone, Copy, PartialEq, Eq, Structural)]
pub enum JsonNumber {
    UInt(u64),
    Other,
}

/// A parsed JSON document. Object members come in the order the parser
/// hands them out, with duplicate keys already resolved by the parser;
/// lookup takes the first match.
#[derive(Debug)]
pub enum JsonValue {
    Null,
    Bool(bool),
    Number(JsonNumber),
    String(String),
    Array(Vec<JsonValue>),
    Object(Vec<(String, JsonValue)>),
}

#[verifier::external_type_specification]
#[verifier::external_body]
pub struct ExValue(serde_json::Value);

/// What `serde_json::from_str::<Value>` yields for the text `s`, carried
/// into the document model: `None` exactly when `s` is not JSON. A
/// function of the text alone.
pub uninterp spec fn json_doc(s: Seq<char>) -> Option<JsonValue>;

/// Relies on `serde_json::from_str::<serde_json::Value>`: parses arbitrary
/// JSON text, deterministically in the text and without panicking (the
/// parser's recursion limit returns an error instead of overflowing); the
/// parsed tree is converted member for member into the document model.
#[verifier::external_body]
pub fn parse_json(s: &str) -> (r: Option<JsonValue>)
    ensures
        r == json_doc(s@),
{
    match serde_json::from_str::<serde_json::Value>(s) {
        Ok(v) => Some(convert_value(v)),
        Err(_) => None,
    }
}

/// The converter behind [`parse_json`]: one arm per `serde_json::Value`
/// variant, moving each field into the model; a number keeps its value
/// exactly when `serde_json::Number::as_u64` gives one.
#[verifier::external_body]
fn convert_value(v: serde_json::Value) -> JsonValue {
    match v {
        serde_json::Value::Null => JsonValue::Null,
        serde_json::Value::Bool(b) => JsonValue::Bool(b),
        serde_json::Value::Number(n) => match n.as_u64() {
            Some(u) => JsonValue::Number(JsonNumber::UInt(u)),
            None => JsonValue::Number(JsonNumber::Other),
        },
        serde_json::Value::String(s) => JsonValue::String(s),
        serde_json::Value::Array(a) => JsonValue::Array(
            a.into_iter().map(convert_value).collect(),
        ),
        serde_json::Value::Object(m) => JsonValue::Object(
            m.into_iter().map(|(k, x)| (k, convert_value(x))).collect(),
        ),
    }
}

/// The first member of `entries` under `key`, if any.
pub open spec fn spec_obj_get(entries: Seq<(String, JsonValue)>, key: Seq<char>) -> Option<
    JsonValue,
>
    decreases entries.len(),
{
    if entries.len() == 0 {
        None
    } else if entries.first().0@ == key {
        Some(entries.first().1)
    } else {
        spec_obj_get(entries.drop_first(), key)
    }
}

/// The member of `v` under `key`: `None` when `v` is not an object or the
/// key is missing.
pub open spec fn spec_get(v: JsonValue, key: Seq<char>) -> Option<JsonValue> {
    match v {
        JsonValue::Object(entries) => spec_obj_get(entries@, key),
        _ => None,
    }
}

impl JsonValue {
    /// Looks `key` up in an object.
    pub fn get<'a>(&'a self, key: &str) -> (r: Option<&'a JsonValue>)
        ensures
            (match r {
                Some(m) => spec_get(*self, key@) == Some(*m),
                None => spec_get(*self, key@) is None,
            }),
    {
        match self {
            JsonValue::Object(entries) => {
                let key_string = key.to_owned();
                let n = entries.len();
                let mut i: usize = 0;
                proof {
                    assert(entries@.skip(0) =~= entries@);
                }
                while i < n
                    invariant
                        n == entries@.len(),
                        i <= n,
                        key_string@ == key@,
                        spec_get(*self, key@) == spec_obj_get(entries@, key@),
                        spec_obj_get(entries@, key@) == spec_obj_get(
                            entries@.skip(i as int),
                            key@,
                        ),
                    decreases n - i,
                {
                    proof {
                        assert(entries@.skip(i as int).first() == entries@[i as int]);
                        assert(entries@.skip(i as int).drop_first() =~= entries@.skip(
                            i + 1 as int,
                        ));
                    }
                    if entries[i].0 == key_string {
                        proof {
                            assert(entries@[i as int].0@ == key@);
                            assert(spec_obj_get(entries@.skip(i as int), key@) == Some(
                                entries@[i as int].1,
                            ));
                        }
                        return Some(&entries[i].1);
                    }
                    i = i + 1;
                }
                proof {
                    assert(entries@.skip(n as int).len() == 0);
                }
                None
            },
            _ => None,
        }
    }
}

/// The character sequence of `Some` string, or `None`.
pub open spec fn opt_str_view(o: Option<String>) -> Option<Seq<char>> {
    match o {
        Some(s) => Some(s@),
        None => None,
    }
}

/// The member under `key` as a string: `None` when missing or of another
/// type.
pub open spec fn spec_string_field(v: JsonValue, key: Seq<char>) -> Option<Seq<char>> {
    match spec_get(v, key) {
        Some(JsonValue::String(s)) => Some(s@),
        _ => None,
    }
}

/// The member under `key` as an optional string: `Some(None)` when the
/// key is missing or the member is `null`, `Some(Some(..))` for a string,
/// `None` (a decode failure) for a member of any other type.
pub open spec fn spec_opt_string_field(v: JsonValue, key: Seq<char>) -> Option<
    Option<Seq<char>>,
> {
    match spec_get(v, key) {
        None => Some(None),
        Some(m) => match m {
            JsonValue::Null => Some(None),
            JsonValue::String(s) => Some(Some(s@)),
            _ => None,
        },
    }
}

/// The member under `key` as a `u64`: `None` when missing or not a
/// non-negative integer.
pub open spec fn spec_u64_field(v: JsonValue, key: Seq<char>) -> Option<u64> {
    match spec_get(v, key) {
        Some(JsonValue::Number(JsonNumber::UInt(u))) => Some(u),
        _ => None,
    }
}

/// The member under `key` as a `u32`: as [`spec_u64_field`], and `None`
/// when the value does not fit.
pub open spec fn spec_u32_field(v: JsonValue, key: Seq<char>) -> Option<u32> {
    match spec_u64_field(v, key) {
        Some(u) => if u <= u32::MAX {
            Some(u as u32)
        } else {
            None
        },
        None => None,
    }
}

/// Reads a string member.
pub fn get_string(v: &JsonValue, key: &str) -> (r: Option<String>)
    ensures
        (match r {
            Some(s) => spec_string_field(*v, key@) == Some(s@),
            None => spec_string_field(*v, key@) is None,
        }),
{
    match v.get(key) {
        Some(JsonValue::String(s)) => Some(s.clone()),
        _ => None,
    }
}

/// Reads an optional string member (absent and `null` both read as
/// `None`; a member of another type is a decode failure).
pub fn get_opt_string(v: &JsonValue, key: &str) -> (r: Option<Option<String>>)
    ensures
        (match r {
            Some(os) => spec_opt_string_field(*v, key@) == Some(opt_str_view(os)),
            None => spec_opt_string_field(*v, key@) is None,
        }),
{
    match v.get(key) {
        None => Some(None),
        Some(m) => match m {
            JsonValue::Null => Some(None),
            JsonValue::String(s) => Some(Some(s.clone())),
            _ => None,
        },
    }
}

/// Reads a `u64` member.
pub fn get_u64(v: &JsonValue, key: &str) -> (r: Option<u64>)
    ensures
        r == spec_u64_field(*v, key@),
{
    match v.get(key) {
        Some(JsonValue::Number(JsonNumber::UInt(u))) => Some(*u),
        _ => None,
    }
}

/// Reads a `u32` member.
pub fn get_u32(v: &JsonValue, key: &str) -> (r: Option<u32>)
    ensures
        r == spec_u32_field(*v, key@),
{
    match get_u64(v, key) {
        Some(u) => if u <= u32::MAX as u64 {
            Some(u as u32)
        } else {
            None
        },
        None => None,
    }
}

} // verus!
