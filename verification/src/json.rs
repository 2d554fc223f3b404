//! Trusted boundary around `serde_json`: the parsed value type is declared
//! opaque, and each accessor the normalization logic needs is wrapped once,
//! with its result tied to an uninterpreted name so that the logic above is
//! a function of the response text alone.

use vstd::prelude::*;

verus! {

#[verifier::external_type_specification]
#[verifier::external_body]
pub struct ExValue(serde_json::Value);

/// The JSON value a body of text parses to, `None` when the text is not
/// valid JSON. Parsing is a function of the text alone.
pub uninterp spec fn parsed_json(s: Seq<char>) -> Option<serde_json::Value>;

/// The value under a given key, `None` when the value is not an object or
/// has no such key.
pub uninterp spec fn json_field(v: serde_json::Value, key: Seq<char>) -> Option<serde_json::Value>;

/// The elements of a JSON array, `None` when the value is not an array.
pub uninterp spec fn json_elements(v: serde_json::Value) -> Option<Seq<serde_json::Value>>;

/// The characters of a JSON string, `None` when the value is not a string.
pub uninterp spec fn json_string(v: serde_json::Value) -> Option<Seq<char>>;

/// A JSON number read as a 64-bit float and truncated (saturating) to `u32`,
/// `None` when the value is not a number.
pub uninterp spec fn json_num_u32(v: serde_json::Value) -> Option<u32>;

/// A JSON number read as a 64-bit float and truncated (saturating) to `i32`,
/// `None` when the value is not a number.
pub uninterp spec fn json_num_i32(v: serde_json::Value) -> Option<i32>;

/// The IEEE-754 bit pattern of a JSON number read as a 64-bit float,
/// `None` when the value is not a number. Zero bits encode the number 0.
pub uninterp spec fn json_num_bits(v: serde_json::Value) -> Option<u64>;

/// Relies on `serde_json::from_str`: parses the text, a function of the
/// text alone; `Err` becomes `None`.
#[verifier::external_body]
pub(crate) fn parse_json(s: &str) -> (r: Option<serde_json::Value>)
    ensures
        r == parsed_json(s@),
{
    serde_json::from_str(s).ok()
}

/// Relies on `serde_json::Value::get` with a string index: the value under
/// the key when `v` is an object that has it, `None` otherwise; the match
/// is cloned out of the tree.
#[verifier::external_body]
pub(crate) fn get_field(v: &serde_json::Value, key: &str) -> (r: Option<serde_json::Value>)
    ensures
        r == json_field(*v, key@),
{
    v.get(key).cloned()
}

/// Relies on `serde_json::Value::as_array`: the element vector when `v` is
/// an array, `None` otherwise; the elements are cloned out of the tree.
#[verifier::external_body]
pub(crate) fn as_array(v: &serde_json::Value) -> (r: Option<Vec<serde_json::Value>>)
    ensures
        (r is Some) == (json_elements(*v) is Some),
        r matches Some(a) ==> json_elements(*v) == Some(a@),
{
    v.as_array().cloned()
}

/// Relies on `serde_json::Value::as_str`: the string content when `v` is a
/// JSON string, `None` otherwise; the content is copied out.
#[verifier::external_body]
pub(crate) fn as_string(v: &serde_json::Value) -> (r: Option<String>)
    ensures
        (r is Some) == (json_string(*v) is Some),
        r matches Some(s) ==> json_string(*v) == Some(s@),
{
    v.as_str().map(str::to_owned)
}

/// Relies on `serde_json::Value::as_f64` and Rust's saturating
/// float-to-integer cast: the numeric value truncated to `u32` when `v` is
/// a number, `None` otherwise.
#[verifier::external_body]
pub(crate) fn as_num_u32(v: &serde_json::Value) -> (r: Option<u32>)
    ensures
        r == json_num_u32(*v),
{
    v.as_f64().map(|f| f as u32)
}

/// Relies on `serde_json::Value::as_f64` and Rust's saturating
/// float-to-integer cast: the numeric value truncated to `i32` when `v` is
/// a number, `None` otherwise.
#[verifier::external_body]
pub(crate) fn as_num_i32(v: &serde_json::Value) -> (r: Option<i32>)
    ensures
        r == json_num_i32(*v),
{
    v.as_f64().map(|f| f as i32)
}

/// Relies on `serde_json::Value::as_f64` and the float's `to_bits`: the
/// IEEE-754 bit pattern of the numeric value when `v` is a number, `None`
/// otherwise.
#[verifier::external_body]
pub(crate) fn as_num_bits(v: &serde_json::Value) -> (r: Option<u64>)
    ensures
        r == json_num_bits(*v),
{
    v.as_f64().map(|f| f.to_bits())
}

} // verus!
