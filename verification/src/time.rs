//! What this library takes from the calendar library on trust.
//!
//! Points in time are held as `chrono::NaiveDateTime`, in UTC.

use vstd::prelude::*;

verus! {

/// A calendar date of `chrono`. Nothing is known of what it holds.
#[verifier::external_type_specification]
#[verifier::external_body]
pub struct ExNaiveDate(chrono::NaiveDate);

/// A date and time of `chrono`, without a time zone. Nothing is known of what it holds.
#[verifier::external_type_specification]
#[verifier::external_body]
pub struct ExNaiveDateTime(chrono::NaiveDateTime);

/// A span of time of `chrono`. Nothing is known of what it holds.
#[verifier::external_type_specification]
#[verifier::external_body]
pub struct ExTimeDelta(chrono::TimeDelta);

/// `Clone::clone` of a date. Nothing is claimed of the copy.
pub assume_specification[ <chrono::NaiveDate as Clone>::clone ](
    value: &chrono::NaiveDate,
) -> chrono::NaiveDate;

/// `Clone::clone` of a date and time. Nothing is claimed of the copy.
pub assume_specification[ <chrono::NaiveDateTime as Clone>::clone ](
    value: &chrono::NaiveDateTime,
) -> chrono::NaiveDateTime;

/// The span from `start` to `end`, as `chrono::NaiveDateTime::signed_duration_since`
/// computes it for `end` and `start`. It depends on these two points in time
/// and on nothing else: on no clock, no time zone and no setting of the machine.
pub uninterp spec fn span_between(
    end: chrono::NaiveDateTime,
    start: chrono::NaiveDateTime,
) -> chrono::TimeDelta;

/// Calls `chrono::NaiveDateTime::signed_duration_since` on `end`, with
/// `start` as its argument. The call returns for every pair. What is
/// claimed of the result is that it is the span of that name: which span
/// that is, is for the calendar library to say.
#[verifier::external_body]
pub(crate) fn duration_between(
    end: &chrono::NaiveDateTime,
    start: &chrono::NaiveDateTime,
) -> (r: chrono::TimeDelta)
    ensures
        r == span_between(*end, *start),
{
    end.signed_duration_since(*start)
}

} // verus!
