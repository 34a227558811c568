//! The library's own model of a JSON document, and the trusted entry
//! point that obtains one from raw text through `serde_json`.

use vstd::prelude::*;

verus! {

/// A JSON value as the catalog logic reads it: the distinctions that the
/// field rules depend on (string, array, object, boolean, integer) are
/// materialized; a number that does not fit a signed 64-bit integer is
/// kept only as `OtherNumber`, since no field rule can use it.
#[derive(Debug, PartialEq)]
pub enum JsonValue {
    Null,
    Bool(bool),
    Int(i64),
    OtherNumber,
    Str(String),
    Array(Vec<JsonValue>),
    Object(Vec<(String, JsonValue)>),
}

/// The value bound to `key` in an entry list, first match wins;
/// `None` when the key is absent.
pub open spec fn lookup_entries(entries: Seq<(String, JsonValue)>, key: Seq<char>) -> Option<
    JsonValue,
>
    decreases entries.len(),
{
    if entries.len() == 0 {
        None
    } else if entries[0].0@ == key {
        Some(entries[0].1)
    } else {
        lookup_entries(entries.drop_first(), key)
    }
}

/// Whether `key` stands in `v`, and with what: `None` where `v` is not
/// an object or has no such key. An explicitly `null` field is present,
/// which the mandatory-shape rules distinguish from an absent one.
pub open spec fn lookup_opt(v: JsonValue, key: Seq<char>) -> Option<JsonValue> {
    match v {
        JsonValue::Object(entries) => lookup_entries(entries@, key),
        _ => None,
    }
}

/// Field access as the default-substituting rules use it: an absent
/// field reads as `Null`, so a non-object record and a missing key
/// take the same default.
pub open spec fn lookup_field(v: JsonValue, key: Seq<char>) -> JsonValue {
    match lookup_opt(v, key) {
        Some(x) => x,
        None => JsonValue::Null,
    }
}

/// Looks `key` up in `v`; `None` means the field is absent.
#[verifier::loop_isolation(false)]
pub fn get<'a>(v: &'a JsonValue, key: &String) -> (r: Option<&'a JsonValue>)
    ensures
        match lookup_opt(*v, key@) {
            Some(x) => r matches Some(y) && *y == x,
            None => r is None,
        },
{
    match v {
        JsonValue::Object(entries) => {
            let n = entries.len();
            let mut i: usize = 0;
            proof {
                assert(entries@.skip(0) =~= entries@);
            }
            while i < n
                invariant
                    i <= n,
                    n == entries.len(),
                    lookup_entries(entries@, key@) == lookup_entries(
                        entries@.skip(i as int),
                        key@,
                    ),
                decreases n - i,
            {
                let pair = &entries[i];
                proof {
                    assert(entries@.skip(i as int)[0] == entries@[i as int]);
                }
                if pair.0 == *key {
                    proof {
                        assert(lookup_entries(entries@.skip(i as int), key@)
                            == Some(entries@[i as int].1));
                    }
                    return Some(&pair.1);
                }
                proof {
                    assert(entries@.skip(i as int).drop_first() =~= entries@.skip(i as int + 1));
                }
                i = i + 1;
            }
            proof {
                assert(entries@.skip(n as int) =~= Seq::<(String, JsonValue)>::empty());
            }
            None
        },
        _ => None,
    }
}

/// The character sequence of a string value; empty for any other value.
pub open spec fn spec_str_or_empty(v: JsonValue) -> Seq<char> {
    match v {
        JsonValue::Str(s) => s@,
        _ => Seq::<char>::empty(),
    }
}

/// Reads `v` as a string, defaulting to the empty string.
pub fn str_or_empty(v: &JsonValue) -> (r: String)
    ensures
        r@ == spec_str_or_empty(*v),
{
    match v {
        JsonValue::Str(s) => s.clone(),
        _ => String::new(),
    }
}

/// The boolean of a boolean value; `false` for any other value.
pub open spec fn spec_bool_or_false(v: JsonValue) -> bool {
    match v {
        JsonValue::Bool(b) => b,
        _ => false,
    }
}

/// Reads `v` as a boolean, defaulting to `false`.
pub fn bool_or_false(v: &JsonValue) -> (r: bool)
    ensures
        r == spec_bool_or_false(*v),
{
    match v {
        JsonValue::Bool(b) => *b,
        _ => false,
    }
}

/// The integer of an integer value; `0` for any other value.
pub open spec fn spec_int_or_zero(v: JsonValue) -> i64 {
    match v {
        JsonValue::Int(i) => i,
        _ => 0,
    }
}

/// Reads `v` as an integer, defaulting to `0`.
pub fn int_or_zero(v: &JsonValue) -> (r: i64)
    ensures
        r == spec_int_or_zero(*v),
{
    match v {
        JsonValue::Int(i) => *i,
        _ => 0,
    }
}

/// The result of parsing `text` as one JSON document: the value tree,
/// or `None` where the text is not valid JSON. Parsing is a function
/// of the text alone.
pub uninterp spec fn json_doc_of(text: Seq<char>) -> Option<JsonValue>;

/// `serde_json`'s own value type, declared so that the conversion below
/// may take it; the library never looks inside it.
#[verifier::external_type_specification]
#[verifier::external_body]
pub struct ExSerdeValue(serde_json::Value);

/// Relies on `serde_json::from_str::<serde_json::Value>`: parsing either
/// yields a value tree determined by the text alone or fails, and on the
/// same text it always does the same.
#[verifier::external_body]
pub(crate) fn parse_json_text(text: &str) -> (r: Option<JsonValue>)
    ensures
        r == json_doc_of(text@),
{
    match serde_json::from_str::<serde_json::Value>(text) {
        Ok(v) => Some(convert_json(&v)),
        Err(_) => None,
    }
}

/// Converts `serde_json`'s value tree into the library's model, variant
/// for variant. Relies on `serde_json::Number::as_i64`: it reports the
/// value exactly when it fits a signed 64-bit integer.
#[verifier::external_body]
fn convert_json(v: &serde_json::Value) -> JsonValue {
    match v {
        serde_json::Value::Null => JsonValue::Null,
        serde_json::Value::Bool(b) => JsonValue::Bool(*b),
        serde_json::Value::Number(n) => match n.as_i64() {
            Some(i) => JsonValue::Int(i),
            None => JsonValue::OtherNumber,
        },
        serde_json::Value::String(s) => JsonValue::Str(s.clone()),
        serde_json::Value::Array(a) => JsonValue::Array(a.iter().map(convert_json).collect()),
        serde_json::Value::Object(m) => JsonValue::Object(
            m.iter().map(|p| (p.0.clone(), convert_json(p.1))).collect(),
        ),
    }
}

} // verus!
