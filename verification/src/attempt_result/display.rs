//! How attempt results are shown to a reader.

use vstd::prelude::*;
use vstd::string::*;
use crate::attempt_result::{
    AttemptResult, CentiSecondAttemptResultValue, FMCAttemptResultValue,
    MultiBlindAttemptResultValue, MultiBlindView,
};
use crate::text::{decimal, decimal_zero_led, format_decimal, format_zero_led};

verus! {

/// A time of `s` seconds on the clock: `H:MM:SS` from an hour on, else `MM:SS`.
pub open spec fn format_clock(s: nat) -> Seq<char> {
    if s >= 3600 {
        decimal(s / 3600) + seq![':'] + decimal_zero_led((s % 3600) / 60) + seq![':']
            + decimal_zero_led(s % 60)
    } else {
        decimal_zero_led(s / 60) + seq![':'] + decimal_zero_led(s % 60)
    }
}

/// How a multiple-blindfolded result is shown.
pub open spec fn format_multi_blind(v: MultiBlindView) -> Seq<char> {
    decimal(v.solved) + seq!['/'] + decimal(v.attempted) + seq![' '] + format_clock(v.time)
}

/// How a time of `t` centiseconds is shown: `S.cc` below a minute, `M:SS.cc`
/// below an hour, else `H:MM:SS.cc`.
pub open spec fn format_centiseconds(t: nat) -> Seq<char> {
    if t < 6000 {
        decimal(t / 100) + seq!['.'] + decimal_zero_led(t % 100)
    } else if t < 360000 {
        decimal(t / 6000) + seq![':'] + decimal_zero_led((t / 100) % 60) + seq!['.']
            + decimal_zero_led(t % 100)
    } else {
        decimal(t / 360000) + seq![':'] + decimal_zero_led((t / 6000) % 60) + seq![':']
            + decimal_zero_led((t / 100) % 60) + seq!['.'] + decimal_zero_led(t % 100)
    }
}

/// How a number of moves is shown. Up to 80 it is a count and shown as it
/// is. Above that it is a hundredfold mean, shown as the hundredth of it
/// with two digits behind the `.`.
pub open spec fn format_moves(v: nat) -> Seq<char> {
    if v > 80 {
        decimal(v / 100) + seq!['.'] + decimal_zero_led(v % 100)
    } else {
        decimal(v)
    }
}

/// How an outcome is shown: nothing for a skipped attempt, `DNF`, `DNS`, or
/// the value of a success as `shown` has it.
pub open spec fn format_attempt_result<V>(r: AttemptResult<V>, shown: spec_fn(V) -> Seq<char>) -> Seq<
    char,
> {
    match r {
        AttemptResult::Skipped => Seq::empty(),
        AttemptResult::DNF => "DNF"@,
        AttemptResult::DNS => "DNS"@,
        AttemptResult::Success(v) => shown(v),
    }
}

impl<ARV: Copy> AttemptResult<ARV> {
    /// Renders this outcome: nothing for a skipped attempt, `DNF`, `DNS`, or
    /// what `success` makes of the value of a success.
    pub fn fmt_or_else<F: Fn(ARV) -> String>(&self, success: &F) -> (r: String)
        requires
            *self matches AttemptResult::Success(v) ==> call_requires(success, (v,)),
        ensures
            match *self {
                AttemptResult::Skipped => r@ == Seq::<char>::empty(),
                AttemptResult::DNF => r@ == "DNF"@,
                AttemptResult::DNS => r@ == "DNS"@,
                AttemptResult::Success(v) => call_ensures(success, (v,), r),
            },
    {
        match *self {
            AttemptResult::Skipped => String::new(),
            AttemptResult::DNF => String::from_str("DNF"),
            AttemptResult::DNS => String::from_str("DNS"),
            AttemptResult::Success(arv) => success(arv),
        }
    }
}

/// Renders a time in centiseconds.
pub fn centiseconds_to_string(t: CentiSecondAttemptResultValue) -> (r: String)
    ensures
        r@ == format_centiseconds(t as nat),
{
    proof {
        reveal_strlit(".");
        reveal_strlit(":");
    }
    let hundredths = format_zero_led((t % 100) as u64);
    let out = if t < 100 * 60 {
        let out = format_decimal((t / 100) as u64);
        out.concat(".")
    } else if t < 100 * 60 * 60 {
        let out = format_decimal((t / 60 / 100) as u64);
        let out = out.concat(":");
        let out = out.concat(format_zero_led(((t / 100) % 60) as u64).as_str());
        out.concat(".")
    } else {
        let out = format_decimal((t / 3600 / 100) as u64);
        let out = out.concat(":");
        let out = out.concat(format_zero_led(((t / 60 / 100) % 60) as u64).as_str());
        let out = out.concat(":");
        let out = out.concat(format_zero_led(((t / 100) % 60) as u64).as_str());
        out.concat(".")
    };
    let out = out.concat(hundredths.as_str());
    assert(out@ =~= format_centiseconds(t as nat));
    out
}

/// Renders a number of moves.
pub fn moves_to_string(v: FMCAttemptResultValue) -> (r: String)
    ensures
        r@ == format_moves(v as nat),
{
    proof {
        reveal_strlit(".");
    }
    if v > 80 {
        let out = format_decimal((v / 100) as u64);
        let out = out.concat(".");
        let out = out.concat(format_zero_led((v % 100) as u64).as_str());
        assert(out@ =~= format_moves(v as nat));
        out
    } else {
        format_decimal(v as u64)
    }
}

impl MultiBlindAttemptResultValue {
    /// Renders this result as `solved/attempted`, a space and the time:
    /// `H:MM:SS` from an hour on, else `MM:SS`.
    pub fn to_string(&self) -> (r: String)
        ensures
            r@ == format_multi_blind(self@),
    {
        proof {
            reveal_strlit("/");
            reveal_strlit(" ");
            reveal_strlit(":");
        }
        let seconds = self.seconds();
        let out = format_decimal(self.solved() as u64);
        let out = out.concat("/");
        let out = out.concat(format_decimal(self.attempted() as u64).as_str());
        let out = out.concat(" ");
        let clock = if seconds >= 3600 {
            let clock = format_decimal((seconds / 3600) as u64);
            let clock = clock.concat(":");
            let clock = clock.concat(format_zero_led(((seconds % 3600) / 60) as u64).as_str());
            let clock = clock.concat(":");
            clock.concat(format_zero_led((seconds % 60) as u64).as_str())
        } else {
            let clock = format_zero_led((seconds / 60) as u64);
            let clock = clock.concat(":");
            clock.concat(format_zero_led((seconds % 60) as u64).as_str())
        };
        let out = out.concat(clock.as_str());
        assert(out@ =~= format_multi_blind(self@));
        out
    }
}

impl AttemptResult<CentiSecondAttemptResultValue> {
    /// Renders this outcome, a success as its time.
    pub fn to_string(&self) -> (r: String)
        ensures
            r@ == format_attempt_result(*self, |v: u32| format_centiseconds(v as nat)),
    {
        match *self {
            AttemptResult::Skipped => String::new(),
            AttemptResult::DNF => String::from_str("DNF"),
            AttemptResult::DNS => String::from_str("DNS"),
            AttemptResult::Success(x) => centiseconds_to_string(x),
        }
    }
}

impl AttemptResult<FMCAttemptResultValue> {
    /// Renders this outcome, a success as its number of moves.
    pub fn to_string(&self) -> (r: String)
        ensures
            r@ == format_attempt_result(*self, |v: u16| format_moves(v as nat)),
    {
        match *self {
            AttemptResult::Skipped => String::new(),
            AttemptResult::DNF => String::from_str("DNF"),
            AttemptResult::DNS => String::from_str("DNS"),
            AttemptResult::Success(x) => moves_to_string(x),
        }
    }
}

impl AttemptResult<MultiBlindAttemptResultValue> {
    /// Renders this outcome, a success as its cubes and time.
    pub fn to_string(&self) -> (r: String)
        ensures
            r@ == format_attempt_result(self@, |v: MultiBlindView| format_multi_blind(v)),
    {
        match self {
            AttemptResult::Skipped => String::new(),
            AttemptResult::DNF => String::from_str("DNF"),
            AttemptResult::DNS => String::from_str("DNS"),
            AttemptResult::Success(x) => x.to_string(),
        }
    }
}

} // verus!
