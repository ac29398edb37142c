//! The JSON boundary: the remote service answers with JSON bodies, parsed
//! by serde_json behind trusted wrappers, and read out into plain values
//! with lenient defaults, as the views expect.
use crate::error::AppError;
use vstd::prelude::*;

verus! {

#[verifier::external_type_specification]
#[verifier::external_body]
pub struct ExValue(serde_json::Value);

#[verifier::external_type_specification]
#[verifier::external_body]
pub struct ExJsonError(serde_json::Error);

/// Whether serde_json accepts a text as one JSON document; it depends on
/// the text alone.
pub uninterp spec fn json_parse_ok(s: Seq<char>) -> bool;

/// Relies on `serde_json::from_str::<Value>`: parses a JSON document, or
/// reports why it is not one; whether a text parses is a function of the
/// text alone.
#[verifier::external_body]
fn parse_json_value(s: &str) -> (r: Result<serde_json::Value, serde_json::Error>)
    ensures
        r is Ok <==> json_parse_ok(s@),
{
    serde_json::from_str::<serde_json::Value>(s)
}

/// The text under a top-level key of a JSON document, when the document
/// parses, carries the key, and the key holds a string; it depends on the
/// document text and the key alone.
pub uninterp spec fn json_string_field_of(body: Seq<char>, key: Seq<char>) -> Option<Seq<char>>;

/// Relies on `serde_json::from_str::<Value>`, `Value::get` and
/// `Value::as_str`: the string under a top-level key, a function of the
/// document text and the key alone.
#[verifier::external_body]
pub fn json_string_field(body: &str, key: &str) -> (r: Option<String>)
    ensures
        match (r, json_string_field_of(body@, key@)) {
            (Option::Some(s), Option::Some(v)) => s@ == v,
            (Option::None, Option::None) => true,
            _ => false,
        },
{
    let document = serde_json::from_str::<serde_json::Value>(body).ok()?;
    document.get(key)?.as_str().map(|s| s.to_owned())
}

/// The unsigned number under a top-level key of a JSON document, when the
/// document parses, carries the key, and the key holds one in range; it
/// depends on the document text and the key alone.
pub uninterp spec fn json_u64_field_of(body: Seq<char>, key: Seq<char>) -> Option<u64>;

/// Relies on `serde_json::from_str::<Value>`, `Value::get` and
/// `Value::as_u64`: the unsigned number under a top-level key, a function
/// of the document text and the key alone.
#[verifier::external_body]
pub fn json_u64_field(body: &str, key: &str) -> (r: Option<u64>)
    ensures
        r == json_u64_field_of(body@, key@),
{
    let document = serde_json::from_str::<serde_json::Value>(body).ok()?;
    document.get(key)?.as_u64()
}

/// The boolean under a top-level key of a JSON document, when the document
/// parses, carries the key, and the key holds a boolean; it depends on the
/// document text and the key alone.
pub uninterp spec fn json_bool_field_of(body: Seq<char>, key: Seq<char>) -> Option<bool>;

/// Relies on `serde_json::from_str::<Value>`, `Value::get` and
/// `Value::as_bool`: the boolean under a top-level key, a function of the
/// document text and the key alone.
#[verifier::external_body]
pub fn json_bool_field(body: &str, key: &str) -> (r: Option<bool>)
    ensures
        r == json_bool_field_of(body@, key@),
{
    let document = serde_json::from_str::<serde_json::Value>(body).ok()?;
    document.get(key)?.as_bool()
}

/// Relies on `serde_json::Value::get`: the value under a key of an object,
/// when there is one.
#[verifier::external_body]
fn value_get<'a>(v: &'a serde_json::Value, key: &str) -> Option<&'a serde_json::Value> {
    v.get(key)
}

/// Relies on `serde_json::Value::as_u64`: the number carried, when the
/// value is an unsigned integer in range.
#[verifier::external_body]
fn value_as_u64(v: &serde_json::Value) -> Option<u64> {
    v.as_u64()
}

/// Relies on `serde_json::Value::as_str`: the text carried, when the value
/// is a string; owned here for the caller.
#[verifier::external_body]
fn value_as_string(v: &serde_json::Value) -> Option<String> {
    v.as_str().map(|s| s.to_owned())
}

/// Relies on `serde_json::Value::as_bool`: the boolean carried, when the
/// value is one.
#[verifier::external_body]
fn value_as_bool(v: &serde_json::Value) -> Option<bool> {
    v.as_bool()
}

/// Relies on `serde_json::Value::as_array` and `Vec::to_owned`: the
/// elements carried, when the value is an array.
#[verifier::external_body]
fn value_as_array(v: &serde_json::Value) -> Option<Vec<serde_json::Value>> {
    v.as_array().map(|a| a.to_owned())
}

/// The text under a top-level key, read leniently: empty when the document
/// does not parse, lacks the key, or holds something else there.
pub open spec fn string_field_or_empty(body: Seq<char>, key: Seq<char>) -> Seq<char> {
    match json_string_field_of(body, key) {
        Option::Some(v) => v,
        Option::None => Seq::<char>::empty(),
    }
}

pub fn get_string_field_or_default(body: &str, key: &str) -> (r: String)
    ensures
        r@ == string_field_or_empty(body@, key@),
{
    match json_string_field(body, key) {
        Option::Some(v) => v,
        Option::None => String::new(),
    }
}

/// The number under a top-level key, read leniently: zero when the document
/// does not parse, lacks the key, or holds something else there.
pub open spec fn u64_field_or_zero(body: Seq<char>, key: Seq<char>) -> u64 {
    match json_u64_field_of(body, key) {
        Option::Some(v) => v,
        Option::None => 0,
    }
}

pub fn get_u64_field_or_default(body: &str, key: &str) -> (r: u64)
    ensures
        r == u64_field_or_zero(body@, key@),
{
    match json_u64_field(body, key) {
        Option::Some(v) => v,
        Option::None => 0,
    }
}

/// The boolean under a top-level key, read leniently: false when the
/// document does not parse, lacks the key, or holds something else there.
pub open spec fn bool_field_or_false(body: Seq<char>, key: Seq<char>) -> bool {
    json_bool_field_of(body, key) == Some(true)
}

pub fn get_bool_field_or_default(body: &str, key: &str) -> (r: bool)
    ensures
        r == bool_field_or_false(body@, key@),
{
    match json_bool_field(body, key) {
        Option::Some(true) => true,
        _ => false,
    }
}

/// Parses a response body as JSON: succeeds exactly on the bodies
/// serde_json accepts; a body that is not JSON becomes the uniform parse
/// error.
pub fn parse_body(body: &str) -> (r: Result<serde_json::Value, AppError>)
    ensures
        r is Ok <==> json_parse_ok(body@),
        r matches Err(e) ==> e.message_view() == "Failed to read the response as JSON."@,
{
    match parse_json_value(body) {
        Result::Ok(v) => Ok(v),
        Result::Err(_) => Err(AppError::new("Failed to read the response as JSON.")),
    }
}

/// The number under a key, or zero when the key is absent or holds
/// something else.
pub fn get_number_or_default(v: &serde_json::Value, key: &str) -> u64 {
    match value_get(v, key) {
        Option::Some(inner) => match value_as_u64(inner) {
            Option::Some(n) => n,
            Option::None => 0,
        },
        Option::None => 0,
    }
}

/// The text under a key, or the empty string when the key is absent or
/// holds something else.
pub fn get_string_or_default(v: &serde_json::Value, key: &str) -> String {
    match value_get(v, key) {
        Option::Some(inner) => match value_as_string(inner) {
            Option::Some(s) => s,
            Option::None => String::new(),
        },
        Option::None => String::new(),
    }
}

/// The elements under a key, or nothing when the key is absent or holds
/// something else.
pub fn get_array_or_default(v: &serde_json::Value, key: &str) -> Vec<serde_json::Value> {
    match value_get(v, key) {
        Option::Some(inner) => match value_as_array(inner) {
            Option::Some(a) => a,
            Option::None => Vec::new(),
        },
        Option::None => Vec::new(),
    }
}

/// The boolean under a key, or false when the key is absent or holds
/// something else.
pub fn get_bool_or_default(v: &serde_json::Value, key: &str) -> bool {
    match value_get(v, key) {
        Option::Some(inner) => match value_as_bool(inner) {
            Option::Some(b) => b,
            Option::None => false,
        },
        Option::None => false,
    }
}

/// A nested value: the value under a key, when the object carries one.
pub fn get_value<'a>(v: &'a serde_json::Value, key: &str) -> Option<&'a serde_json::Value> {
    value_get(v, key)
}

/// The text a value itself carries, when it is a string.
pub fn string_of_value(v: &serde_json::Value) -> Option<String> {
    value_as_string(v)
}


/// The name and id fields of every element, in order.
pub fn collect_names_and_ids(values: &Vec<serde_json::Value>) -> Vec<(String, String)> {
    let mut names_and_ids = Vec::<(String, String)>::new();
    let n = values.len();
    let mut i: usize = 0;
    while i < n
        invariant
            n == values@.len(),
            i <= n,
        decreases n - i,
    {
        let name = get_string_or_default(&values[i], "name");
        let id = get_string_or_default(&values[i], "id");
        names_and_ids.push((name, id));
        i = i + 1;
    }
    names_and_ids
}

/// The name-and-id pairs under the `items` key of a result group, entries
/// with an empty name or id left out.
pub fn get_names_and_ids(value: Option<&serde_json::Value>) -> Vec<(String, String)> {
    let mut names_and_ids = Vec::<(String, String)>::new();
    match value {
        Option::Some(v) => {
            let values_array = get_array_or_default(v, "items");
            let n = values_array.len();
            let mut i: usize = 0;
            while i < n
                invariant
                    n == values_array@.len(),
                    i <= n,
                decreases n - i,
            {
                let name = get_string_or_default(&values_array[i], "name");
                let id = get_string_or_default(&values_array[i], "id");
                if !name.as_str().is_empty() && !id.as_str().is_empty() {
                    names_and_ids.push((name, id));
                }
                i = i + 1;
            }
        },
        Option::None => {},
    }
    names_and_ids
}

} // verus!
