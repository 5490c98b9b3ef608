//! JSON text and JSON values, as `serde_json` reads and writes them.

use vstd::prelude::*;

verus! {

/// A JSON value of `serde_json`, opaque to the verifier.
#[verifier::external_type_specification]
#[verifier::external_body]
pub struct ExValue(serde_json::Value);

/// An error of `serde_json`, opaque to the verifier.
#[verifier::external_type_specification]
#[verifier::external_body]
pub struct ExError(serde_json::Error);

/// Whether `Value::is_null` holds of the given JSON value.
pub uninterp spec fn json_is_null(value: serde_json::Value) -> bool;

/// What `Value::as_u64` gives for the given JSON value: the number, if the value is an
/// integer that fits.
pub uninterp spec fn json_as_u64(value: serde_json::Value) -> Option<u64>;

/// What `Value::as_i64` gives for the given JSON value: the number, if the value is an
/// integer that fits.
pub uninterp spec fn json_as_i64(value: serde_json::Value) -> Option<i64>;

/// What `Value::as_str` gives for the given JSON value: the text, if the value is a string.
pub uninterp spec fn json_as_str(value: serde_json::Value) -> Option<Seq<char>>;

/// What `Value::as_object` gives for the given JSON value: its fields by their keys, if the
/// value is an object.
pub uninterp spec fn json_as_object(value: serde_json::Value) -> Option<
    Map<Seq<char>, serde_json::Value>,
>;

/// What `Value::as_array` gives for the given JSON value: its elements, if the value is an
/// array.
pub uninterp spec fn json_as_array(value: serde_json::Value) -> Option<Seq<serde_json::Value>>;

/// What `serde_json::from_slice` makes of the given bytes when it reads them as one JSON value.
pub uninterp spec fn json_from_slice(bytes: Seq<u8>) -> Result<serde_json::Value, serde_json::Error>;

/// The bytes that `serde_json::to_vec` writes for the given JSON value.
pub uninterp spec fn json_to_vec(value: serde_json::Value) -> Result<Seq<u8>, serde_json::Error>;

/// The text that `String::from_utf8_lossy` decodes from the given bytes.
pub uninterp spec fn utf8_lossy(bytes: Seq<u8>) -> Seq<char>;

/// The text that `serde_json::Error` displays for the given error.
pub uninterp spec fn json_error_text(error: serde_json::Error) -> Seq<char>;

/// Calls `serde_json::from_slice` to read the bytes as one JSON value.
///
/// Trusted: the outcome depends on the bytes alone and is given the name [`json_from_slice`].
#[verifier::external_body]
pub(crate) fn parse_json(bytes: &Vec<u8>) -> (parsed: Result<serde_json::Value, serde_json::Error>)
    ensures
        parsed == json_from_slice(bytes@),
{
    serde_json::from_slice::<serde_json::Value>(bytes.as_slice())
}

/// Calls `serde_json::to_vec` to write the JSON value as bytes.
///
/// Trusted: the outcome depends on the value alone and is given the name [`json_to_vec`].
#[verifier::external_body]
pub(crate) fn serialize_json(value: &serde_json::Value) -> (serialized: Result<
    Vec<u8>,
    serde_json::Error,
>)
    ensures
        match serialized {
            Ok(bytes) => json_to_vec(*value) == Ok::<Seq<u8>, serde_json::Error>(bytes@),
            Err(error) => json_to_vec(*value) == Err::<Seq<u8>, serde_json::Error>(error),
        },
{
    serde_json::to_vec(value)
}

/// Calls `to_string` on a `serde_json::Error`, which formats it with its `Display` impl.
///
/// Trusted: the text depends on the error alone and is given the name [`json_error_text`].
#[verifier::external_body]
pub(crate) fn error_text(error: &serde_json::Error) -> (text: String)
    ensures
        text@ == json_error_text(*error),
{
    error.to_string()
}

/// Calls `String::from_utf8_lossy`, which decodes the bytes as UTF-8 and puts U+FFFD in place
/// of each invalid sequence.
///
/// Trusted: the text depends on the bytes alone and is given the name [`utf8_lossy`].
#[verifier::external_body]
pub(crate) fn lossy_text(bytes: &Vec<u8>) -> (text: String)
    ensures
        text@ == utf8_lossy(bytes@),
{
    String::from_utf8_lossy(bytes.as_slice()).into_owned()
}

/// `Value::clone` gives a JSON value that is equal to the one it was called on.
pub assume_specification[ <serde_json::Value as Clone>::clone ](value: &serde_json::Value) -> (copy:
    serde_json::Value)
    ensures
        copy == *value,
;

/// Calls `Value::is_null`.
///
/// Trusted: the result is given the name [`json_is_null`].
#[verifier::external_body]
pub(crate) fn is_null(value: &serde_json::Value) -> (null: bool)
    ensures
        null == json_is_null(*value),
{
    value.is_null()
}

/// Calls `Value::as_u64`.
///
/// Trusted: the result is given the name [`json_as_u64`].
#[verifier::external_body]
pub(crate) fn as_u64(value: &serde_json::Value) -> (number: Option<u64>)
    ensures
        number == json_as_u64(*value),
{
    value.as_u64()
}

/// Calls `Value::as_i64`.
///
/// Trusted: the result is given the name [`json_as_i64`].
#[verifier::external_body]
pub(crate) fn as_i64(value: &serde_json::Value) -> (number: Option<i64>)
    ensures
        number == json_as_i64(*value),
{
    value.as_i64()
}

/// Calls `Value::as_str` and copies the text.
///
/// Trusted: the result is given the name [`json_as_str`].
#[verifier::external_body]
pub(crate) fn as_text(value: &serde_json::Value) -> (text: Option<String>)
    ensures
        match text {
            Some(text) => json_as_str(*value) == Some(text@),
            None => json_as_str(*value) is None,
        },
{
    value.as_str().map(|text| text.to_owned())
}

/// Calls `Value::as_array`.
///
/// Trusted: the result is given the name [`json_as_array`].
#[verifier::external_body]
pub(crate) fn as_array(value: &serde_json::Value) -> (elements: Option<&Vec<serde_json::Value>>)
    ensures
        match elements {
            Some(elements) => json_as_array(*value) == Some(elements@),
            None => json_as_array(*value) is None,
        },
{
    value.as_array()
}

/// Calls `Value::get` with a string as the index.
///
/// Trusted: the call gives the field with the given key if the value is an object that has
/// one, and `None` otherwise; what an object has is named by [`json_as_object`].
#[verifier::external_body]
pub(crate) fn field<'a>(value: &'a serde_json::Value, key: &str) -> (found: Option<
    &'a serde_json::Value,
>)
    ensures
        match json_as_object(*value) {
            Some(fields) => if fields.dom().contains(key@) {
                found == Some(&fields[key@])
            } else {
                found is None
            },
            None => found is None,
        },
{
    value.get(key)
}

/// Calls `Value::as_object` and, on the object, `Map::len`.
///
/// Trusted: the call gives the number of keys if the value is an object, which has finitely
/// many, and `None` otherwise; what an object has is named by [`json_as_object`].
#[verifier::external_body]
pub(crate) fn field_count(value: &serde_json::Value) -> (count: Option<usize>)
    ensures
        match json_as_object(*value) {
            Some(fields) => {
                &&& fields.dom().finite()
                &&& count matches Some(n)
                &&& n == fields.dom().len()
            },
            None => count is None,
        },
{
    value.as_object().map(|fields| fields.len())
}

/// Makes `Value::Null`.
///
/// Trusted: `Value::is_null` holds of it.
#[verifier::external_body]
pub(crate) fn null_value() -> (value: serde_json::Value)
    ensures
        json_is_null(value),
{
    serde_json::Value::Null
}

/// Calls `Value::from` on a `u64`, which makes a JSON number.
///
/// Trusted: the value is not null, and `Value::as_u64` gives the number back.
#[verifier::external_body]
pub(crate) fn number_value(number: u64) -> (value: serde_json::Value)
    ensures
        !json_is_null(value),
        json_as_u64(value) == Some(number),
{
    serde_json::Value::from(number)
}

/// Calls `Value::from` on an `i64`, which makes a JSON number.
///
/// Trusted: `Value::as_i64` gives the number back.
#[verifier::external_body]
pub(crate) fn integer_value(number: i64) -> (value: serde_json::Value)
    ensures
        json_as_i64(value) == Some(number),
{
    serde_json::Value::from(number)
}

/// Makes `Value::String` of the text.
///
/// Trusted: the value is neither null nor a number, and `Value::as_str` gives the text back.
#[verifier::external_body]
pub(crate) fn text_value(text: String) -> (value: serde_json::Value)
    ensures
        !json_is_null(value),
        json_as_u64(value) is None,
        json_as_str(value) == Some(text@),
{
    serde_json::Value::String(text)
}

/// Makes `Value::Array` of the elements.
///
/// Trusted: `Value::as_array` gives the elements back.
#[verifier::external_body]
pub(crate) fn array_value(elements: Vec<serde_json::Value>) -> (value: serde_json::Value)
    ensures
        json_as_array(value) == Some(elements@),
{
    serde_json::Value::Array(elements)
}

/// Makes `Value::Object` of an empty `serde_json::Map`.
///
/// Trusted: the value is an object without fields.
#[verifier::external_body]
pub(crate) fn empty_object() -> (value: serde_json::Value)
    ensures
        json_as_object(value) == Some(Map::<Seq<char>, serde_json::Value>::empty()),
{
    serde_json::Value::Object(serde_json::Map::new())
}

/// Calls `Map::insert` on the fields of an object.
///
/// Trusted: the object then has the given value under the given key, in the place of what
/// it had under that key before, and its other fields as before.
#[verifier::external_body]
pub(crate) fn with_field(object: serde_json::Value, key: &str, value: serde_json::Value) -> (extended:
    serde_json::Value)
    requires
        json_as_object(object) is Some,
    ensures
        json_as_object(extended) == Some(json_as_object(object)->0.insert(key@, value)),
{
    let mut extended = object;
    if let serde_json::Value::Object(fields) = &mut extended {
        fields.insert(key.to_owned(), value);
    }
    extended
}

} // verus!
