//! Attempt results: what a competitor achieved in one attempt, and the
//! signed integer that stands for it on the wire.
//!
//! `0` is a skipped attempt, `-1` one that was not finished, `-2` one that
//! was not started, and a positive number a success. For most events the
//! number is a time in centiseconds; for the fewest-moves event it is a
//! count of moves; for the multiple-blindfolded event it packs the cubes
//! solved, the cubes attempted and the time into one number
//! ([`multi_blind`]).
//!
//! [`order`] says which of two outcomes is the better one, [`display`] how
//! an outcome is shown, and [`round_trip`] that what is written is read back.

use vstd::prelude::*;
use vstd::string::*;
use crate::json::{json_integer, json_integer_value};

pub mod display;
pub mod multi_blind;
pub mod order;
pub mod round_trip;

pub use multi_blind::{decode_multi_blind, MultiBlindAttemptResultValue, MultiBlindView};

verus! {

/// A time in hundredths of a second.
pub type CentiSecondAttemptResultValue = u32;

/// A number of moves. An average of such numbers is held a hundredfold.
pub type FMCAttemptResultValue = u16;

/// The outcome of one attempt, with a value of type `ARV` for a success.
#[derive(Copy, Clone, PartialEq, Eq, Debug, Hash)]
pub enum AttemptResult<ARV> {
    /// The attempt was not made.
    Skipped,
    /// The attempt was not finished.
    DNF,
    /// The attempt was not started.
    DNS,
    /// The attempt succeeded.
    Success(ARV),
}

impl<ARV: View> View for AttemptResult<ARV> {
    type V = AttemptResult<ARV::V>;

    open spec fn view(&self) -> AttemptResult<ARV::V> {
        match self {
            AttemptResult::Skipped => AttemptResult::Skipped,
            AttemptResult::DNF => AttemptResult::DNF,
            AttemptResult::DNS => AttemptResult::DNS,
            AttemptResult::Success(v) => AttemptResult::Success(v@),
        }
    }
}

/// Why a wire value is not an attempt result.
#[derive(Copy, Clone, PartialEq, Eq, Debug, Hash, Structural)]
pub enum AttemptResultError {
    /// The wire value is not an integer that fits in 64 bits with a sign.
    NotANumber,
    /// The integer is below `-2`.
    InvalidResult,
}

impl AttemptResultError {
    /// The message of this error.
    pub open spec fn message(self) -> Seq<char> {
        match self {
            AttemptResultError::NotANumber => "Not a number"@,
            AttemptResultError::InvalidResult => "not a valid result"@,
        }
    }

    /// Renders the message of this error.
    pub fn to_string(&self) -> (r: String)
        ensures
            r@ == self.message(),
    {
        match self {
            AttemptResultError::NotANumber => String::from_str("Not a number"),
            AttemptResultError::InvalidResult => String::from_str("not a valid result"),
        }
    }
}

/// The outcome that the integer `value` stands for, if it stands for one. A
/// positive integer is a success with the value that its low 32 bits hold.
pub open spec fn decode_attempt_result(value: int) -> Option<AttemptResult<u32>> {
    if value == -2 {
        Some(AttemptResult::DNS)
    } else if value == -1 {
        Some(AttemptResult::DNF)
    } else if value == 0 {
        Some(AttemptResult::Skipped)
    } else if value > 0 {
        Some(AttemptResult::Success((value % 0x1_0000_0000) as u32))
    } else {
        None
    }
}

/// The integer that stands for an outcome, `raw` being the integer of a success.
pub open spec fn encode_attempt_result<V>(r: AttemptResult<V>, raw: spec_fn(V) -> int) -> int {
    match r {
        AttemptResult::Skipped => 0,
        AttemptResult::DNF => -1,
        AttemptResult::DNS => -2,
        AttemptResult::Success(v) => raw(v),
    }
}

/// An outcome with the value of a success, if it is one, replaced by what `f` makes of it.
pub open spec fn map_attempt_result<A, B>(r: AttemptResult<A>, f: spec_fn(A) -> B) -> AttemptResult<
    B,
> {
    match r {
        AttemptResult::Skipped => AttemptResult::Skipped,
        AttemptResult::DNF => AttemptResult::DNF,
        AttemptResult::DNS => AttemptResult::DNS,
        AttemptResult::Success(v) => AttemptResult::Success(f(v)),
    }
}

/// The outcome that a wire value stands for, `value` being the integer that
/// the wire value holds, if it holds one.
pub open spec fn decode_json_integer(value: Option<i64>) -> Result<
    AttemptResult<u32>,
    AttemptResultError,
> {
    match value {
        None => Err(AttemptResultError::NotANumber),
        Some(x) => match decode_attempt_result(x as int) {
            Some(r) => Ok(r),
            None => Err(AttemptResultError::InvalidResult),
        },
    }
}

impl<ARV: Copy> AttemptResult<ARV> {
    /// Whether the attempt succeeded.
    pub fn is_success(&self) -> (r: bool)
        ensures
            r == (*self is Success),
    {
        if let AttemptResult::Success(_) = self {
            true
        } else {
            false
        }
    }

    /// The value of a success.
    pub fn ok(&self) -> (r: Option<ARV>)
        ensures
            r == (match *self {
                AttemptResult::Success(a) => Some(a),
                _ => None,
            }),
    {
        match *self {
            AttemptResult::Success(a) => Some(a),
            _ => None,
        }
    }
}

impl AttemptResult<CentiSecondAttemptResultValue> {
    /// The outcome that the integer `value` stands for.
    pub fn decode(value: i64) -> (r: Option<Self>)
        ensures
            r == decode_attempt_result(value as int),
    {
        if value == -2 {
            Some(AttemptResult::DNS)
        } else if value == -1 {
            Some(AttemptResult::DNF)
        } else if value == 0 {
            Some(AttemptResult::Skipped)
        } else if value > 0 {
            let low: i64 = value % 0x1_0000_0000;
            Some(AttemptResult::Success(low as u32))
        } else {
            None
        }
    }

    /// The integer that stands for this outcome.
    pub fn encode(&self) -> (r: i64)
        ensures
            r == encode_attempt_result(*self, |v: u32| v as int),
            -2 <= r <= u32::MAX,
    {
        match self {
            AttemptResult::Skipped => 0,
            AttemptResult::DNF => -1,
            AttemptResult::DNS => -2,
            AttemptResult::Success(x) => *x as i64,
        }
    }

    /// The outcome that a wire value stands for, given the integer that the
    /// wire value holds, if it holds one.
    pub fn from_json_integer(value: Option<i64>) -> (r: Result<Self, AttemptResultError>)
        ensures
            r == decode_json_integer(value),
    {
        match value {
            None => Err(AttemptResultError::NotANumber),
            Some(x) => match Self::decode(x) {
                Some(r) => Ok(r),
                None => Err(AttemptResultError::InvalidResult),
            },
        }
    }

    /// The outcome that a JSON value stands for: that of the integer that
    /// the value holds, and `NotANumber` if it holds none.
    pub fn from_json(value: &serde_json::Value) -> (r: Result<Self, AttemptResultError>)
        ensures
            r == decode_json_integer(json_integer_value(*value)),
    {
        Self::from_json_integer(json_integer(value))
    }

    /// This outcome as one of the multiple-blindfolded event.
    pub fn to_multi_blind(&self) -> (r: AttemptResult<MultiBlindAttemptResultValue>)
        ensures
            r@ == map_attempt_result(*self, |v: u32| decode_multi_blind(v as nat)),
            r == map_attempt_result(
                *self,
                |v: u32| MultiBlindAttemptResultValue::of_view(decode_multi_blind(v as nat)),
            ),
    {
        match *self {
            AttemptResult::Skipped => AttemptResult::Skipped,
            AttemptResult::DNF => AttemptResult::DNF,
            AttemptResult::DNS => AttemptResult::DNS,
            AttemptResult::Success(x) => AttemptResult::Success(
                MultiBlindAttemptResultValue::from_raw(x),
            ),
        }
    }

    /// This outcome as one of the multiple-blindfolded event.
    pub fn as_multi_blind(&self) -> (r: AttemptResult<MultiBlindAttemptResultValue>)
        ensures
            r@ == map_attempt_result(*self, |v: u32| decode_multi_blind(v as nat)),
            r == map_attempt_result(
                *self,
                |v: u32| MultiBlindAttemptResultValue::of_view(decode_multi_blind(v as nat)),
            ),
    {
        self.to_multi_blind()
    }

    /// This outcome as one of the fewest-moves event: the low 16 bits of the value.
    pub fn to_fmc(&self) -> (r: AttemptResult<FMCAttemptResultValue>)
        ensures
            r == map_attempt_result(*self, |v: u32| (v % 0x1_0000) as u16),
    {
        match *self {
            AttemptResult::Skipped => AttemptResult::Skipped,
            AttemptResult::DNF => AttemptResult::DNF,
            AttemptResult::DNS => AttemptResult::DNS,
            AttemptResult::Success(x) => {
                let low: u32 = x % 0x1_0000;
                AttemptResult::Success(low as u16)
            },
        }
    }
}

impl AttemptResult<FMCAttemptResultValue> {
    /// The integer that stands for this outcome.
    pub fn encode(&self) -> (r: i64)
        ensures
            r == encode_attempt_result(*self, |v: u16| v as int),
    {
        match self {
            AttemptResult::Skipped => 0,
            AttemptResult::DNF => -1,
            AttemptResult::DNS => -2,
            AttemptResult::Success(x) => *x as i64,
        }
    }
}

impl AttemptResult<MultiBlindAttemptResultValue> {
    /// The outcome of the multiple-blindfolded event that the integer `value` stands for.
    pub fn decode(value: i64) -> (r: Option<Self>)
        ensures
            match r {
                Some(x) => decode_attempt_result(value as int) matches Some(plain) && x@
                    == map_attempt_result(plain, |v: u32| decode_multi_blind(v as nat)),
                None => decode_attempt_result(value as int) is None,
            },
    {
        match AttemptResult::<CentiSecondAttemptResultValue>::decode(value) {
            Some(plain) => Some(plain.to_multi_blind()),
            None => None,
        }
    }

    /// The integer that stands for this outcome.
    pub fn encode(&self) -> (r: i64)
        ensures
            r == encode_attempt_result(self@, |v: MultiBlindView| v.encode()),
    {
        match self {
            AttemptResult::Skipped => 0,
            AttemptResult::DNF => -1,
            AttemptResult::DNS => -2,
            AttemptResult::Success(x) => x.encode(),
        }
    }
}

impl vstd::std_specs::convert::FromSpecImpl<AttemptResult<CentiSecondAttemptResultValue>> for AttemptResult<MultiBlindAttemptResultValue> {
    open spec fn obeys_from_spec() -> bool {
        true
    }

    open spec fn from_spec(value: AttemptResult<CentiSecondAttemptResultValue>) -> Self {
        map_attempt_result(
            value,
            |v: u32| MultiBlindAttemptResultValue::of_view(decode_multi_blind(v as nat)),
        )
    }
}

impl From<AttemptResult<CentiSecondAttemptResultValue>> for AttemptResult<MultiBlindAttemptResultValue> {
    /// The outcome as one of the multiple-blindfolded event.
    fn from(value: AttemptResult<CentiSecondAttemptResultValue>) -> (r: Self)
        ensures
            r@ == map_attempt_result(value, |v: u32| decode_multi_blind(v as nat)),
    {
        value.to_multi_blind()
    }
}

impl vstd::std_specs::convert::FromSpecImpl<AttemptResult<CentiSecondAttemptResultValue>> for AttemptResult<FMCAttemptResultValue> {
    open spec fn obeys_from_spec() -> bool {
        true
    }

    open spec fn from_spec(value: AttemptResult<CentiSecondAttemptResultValue>) -> Self {
        map_attempt_result(value, |v: u32| (v % 0x1_0000) as u16)
    }
}

impl From<AttemptResult<CentiSecondAttemptResultValue>> for AttemptResult<FMCAttemptResultValue> {
    /// The outcome as one of the fewest-moves event.
    fn from(value: AttemptResult<CentiSecondAttemptResultValue>) -> (r: Self) {
        value.to_fmc()
    }
}

impl vstd::std_specs::convert::TryFromSpecImpl<i64> for AttemptResult<CentiSecondAttemptResultValue> {
    open spec fn obeys_try_from_spec() -> bool {
        true
    }

    open spec fn try_from_spec(value: i64) -> Result<Self, Self::Error> {
        match decode_attempt_result(value as int) {
            Some(r) => Ok(r),
            None => Err(()),
        }
    }
}

impl TryFrom<i64> for AttemptResult<CentiSecondAttemptResultValue> {
    type Error = ();

    /// The outcome that the integer `value` stands for.
    fn try_from(value: i64) -> (r: Result<Self, Self::Error>) {
        match Self::decode(value) {
            Some(r) => Ok(r),
            None => Err(()),
        }
    }
}

impl vstd::std_specs::convert::TryFromSpecImpl<i64> for AttemptResult<MultiBlindAttemptResultValue> {
    open spec fn obeys_try_from_spec() -> bool {
        true
    }

    open spec fn try_from_spec(value: i64) -> Result<Self, Self::Error> {
        match decode_attempt_result(value as int) {
            Some(r) => Ok(
                map_attempt_result(
                    r,
                    |v: u32| MultiBlindAttemptResultValue::of_view(decode_multi_blind(v as nat)),
                ),
            ),
            None => Err(()),
        }
    }
}

impl TryFrom<i64> for AttemptResult<MultiBlindAttemptResultValue> {
    type Error = ();

    /// The outcome of the multiple-blindfolded event that the integer `value` stands for.
    fn try_from(value: i64) -> (r: Result<Self, Self::Error>) {
        match AttemptResult::<CentiSecondAttemptResultValue>::decode(value) {
            Some(plain) => Ok(AttemptResult::from(plain)),
            None => Err(()),
        }
    }
}

} // verus!
