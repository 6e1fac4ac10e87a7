//! What this library takes from the JSON library on trust.

use vstd::prelude::*;

verus! {

/// A JSON value of `serde_json`. Nothing is known of what it holds.
#[verifier::external_type_specification]
#[verifier::external_body]
pub struct ExJsonValue(serde_json::Value);

/// `Clone::clone` of a JSON value. Nothing is claimed of the copy.
pub assume_specification[ <serde_json::Value as Clone>::clone ](
    value: &serde_json::Value,
) -> serde_json::Value;

/// The integer that a JSON value holds, as `serde_json::Value::as_i64`
/// gives it: the number itself if the value is a number without fraction
/// that fits in an `i64`, and nothing for every other value. It depends on
/// the value alone.
pub uninterp spec fn json_integer_value(value: serde_json::Value) -> Option<i64>;

/// Calls `serde_json::Value::as_i64`, which returns for every value. What is
/// claimed of the result is that it is the integer of that name: which
/// values hold an integer is for the JSON library to say.
#[verifier::external_body]
pub(crate) fn json_integer(value: &serde_json::Value) -> (r: Option<i64>)
    ensures
        r == json_integer_value(*value),
{
    value.as_i64()
}

} // verus!
