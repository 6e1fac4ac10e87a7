//! The result of a multiple-blindfolded attempt, and the number that packs it.
//!
//! The number has one of two layouts of decimal digits, told apart by its
//! size. The current one is `DDTTTTTMM`: `99 - DD` is the score (cubes
//! solved minus cubes missed), `TTTTT` the time in seconds and `MM` the
//! cubes missed. The old one is `1SSAATTTTT`: `99 - SS` cubes solved of
//! `AA` attempted in `TTTTT` seconds.

use vstd::prelude::*;
use crate::attempt_result::CentiSecondAttemptResultValue;

verus! {

/// The result of a multiple-blindfolded attempt, unpacked.
///
/// A value of this type is always well-formed (`MultiBlindView::wf`): it
/// comes from a packed number, and can be packed again without loss.
#[derive(Copy, Clone, PartialEq, Eq, Debug, Hash)]
pub struct MultiBlindAttemptResultValue {
    attempted: u32,
    solved: u32,
    time: CentiSecondAttemptResultValue,
    old_style: bool,
}

/// What a `MultiBlindAttemptResultValue` holds.
pub struct MultiBlindView {
    /// The number of cubes attempted.
    pub attempted: nat,
    /// The number of cubes solved.
    pub solved: nat,
    /// The time taken, in seconds.
    pub time: nat,
    /// Whether the value came in the layout that is no longer written.
    pub old_style: bool,
}

impl MultiBlindView {
    /// The number of cubes that were attempted and not solved.
    pub open spec fn failed(self) -> int {
        self.attempted - self.solved
    }

    /// The score: cubes solved minus cubes failed.
    pub open spec fn points(self) -> int {
        self.solved - self.failed()
    }

    /// Whether the value can be packed: each part fits the digits that its
    /// layout has for it.
    pub open spec fn wf(self) -> bool {
        &&& self.time < 100_000
        &&& if self.old_style {
            self.attempted <= 99 && self.solved <= 99
        } else {
            0 <= self.failed() <= 99 && 0 <= self.points() <= 99
        }
    }

    /// The packed number of this value, in the layout that it came in.
    pub open spec fn encode(self) -> int {
        if self.old_style {
            1_000_000_000 + (99 - self.solved) * 10_000_000 + self.attempted * 100_000 + self.time
        } else {
            (99 - self.points()) * 10_000_000 + self.time * 100 + self.failed()
        }
    }
}

/// What a packed number holds. Below `1_000_000_000` it is read in the
/// current layout, `DDTTTTTMM`: `99 - DD` is the score, `TTTTT` the seconds
/// and `MM` the cubes missed. From there on it is read in the old layout,
/// `1SSAATTTTT`: `99 - SS` cubes solved of `AA` attempted in `TTTTT` seconds.
pub open spec fn decode_multi_blind(raw: nat) -> MultiBlindView {
    if raw < 1_000_000_000 {
        let missed = raw % 100;
        let rest = raw / 100;
        let time = rest % 100_000;
        let lead = rest / 100_000;
        let difference = (99 - lead) as nat;
        let solved = difference + missed;
        MultiBlindView { attempted: solved + missed, solved, time, old_style: false }
    } else {
        let time = raw % 100_000;
        let rest = raw / 100_000;
        let attempted = rest % 100;
        let lead = rest / 100;
        let solved = (99 - lead % 100) as nat;
        MultiBlindView { attempted, solved, time, old_style: true }
    }
}

impl View for MultiBlindAttemptResultValue {
    type V = MultiBlindView;

    closed spec fn view(&self) -> MultiBlindView {
        MultiBlindView {
            attempted: self.attempted as nat,
            solved: self.solved as nat,
            time: self.time as nat,
            old_style: self.old_style,
        }
    }
}

impl MultiBlindAttemptResultValue {
    #[verifier::type_invariant]
    spec fn well_formed(self) -> bool {
        self@.wf()
    }

    /// The value with the given content.
    pub closed spec fn of_view(v: MultiBlindView) -> MultiBlindAttemptResultValue {
        MultiBlindAttemptResultValue {
            attempted: v.attempted as u32,
            solved: v.solved as u32,
            time: v.time as u32,
            old_style: v.old_style,
        }
    }

    /// A value is known by its content.
    pub proof fn lemma_of_view(v: MultiBlindView)
        requires
            v.attempted <= u32::MAX,
            v.solved <= u32::MAX,
            v.time <= u32::MAX,
        ensures
            MultiBlindAttemptResultValue::of_view(v)@ == v,
    {
    }

    /// Two values with the same content are the same value.
    pub proof fn lemma_view_injective(self, other: MultiBlindAttemptResultValue)
        ensures
            (self@ == other@) == (self == other),
    {
    }

    /// Unpacks a number.
    pub fn from_raw(value: CentiSecondAttemptResultValue) -> (r: Self)
        ensures
            r@ == decode_multi_blind(value as nat),
            r == MultiBlindAttemptResultValue::of_view(decode_multi_blind(value as nat)),
    {
        if value < 1_000_000_000 {
            let missed: u32 = value % 100;
            let value: u32 = value / 100;
            let time: u32 = value % 100_000;
            let value: u32 = value / 100_000;
            let difference: u32 = 99 - value;
            let solved: u32 = difference + missed;
            let attempted: u32 = solved + missed;
            Self { attempted, solved, time, old_style: false }
        } else {
            let time: u32 = value % 100_000;
            let value: u32 = value / 100_000;
            let attempted: u32 = value % 100;
            let value: u32 = value / 100;
            let solved: u32 = 99 - (value % 100);
            Self { attempted, solved, time, old_style: true }
        }
    }

    /// The number of cubes attempted.
    pub fn attempted(&self) -> (r: u32)
        ensures
            r == self@.attempted,
            self@.wf(),
    {
        proof {
            use_type_invariant(self);
        }
        self.attempted
    }

    /// The number of cubes solved.
    pub fn solved(&self) -> (r: u32)
        ensures
            r == self@.solved,
            self@.wf(),
    {
        proof {
            use_type_invariant(self);
        }
        self.solved
    }

    /// The number of cubes that were attempted and not solved. A value in
    /// the old layout can claim more cubes solved than attempted, and has
    /// no such number then.
    pub fn failed(&self) -> (r: u32)
        requires
            self@.solved <= self@.attempted,
        ensures
            r == self@.failed(),
    {
        self.attempted - self.solved
    }

    /// The score: cubes solved minus cubes failed. A value in the old layout
    /// can have a score below zero, which this does not return.
    pub fn points(&self) -> (r: u32)
        requires
            self@.failed() >= 0,
            self@.points() >= 0,
        ensures
            r == self@.points(),
    {
        self.solved() - self.failed()
    }

    /// The time taken, in seconds.
    pub fn seconds(&self) -> (r: CentiSecondAttemptResultValue)
        ensures
            r == self@.time,
            self@.wf(),
    {
        proof {
            use_type_invariant(self);
        }
        self.time
    }

    /// Whether the value came in the layout that is no longer written.
    pub fn is_old_style(&self) -> (r: bool)
        ensures
            r == self@.old_style,
            self@.wf(),
    {
        proof {
            use_type_invariant(self);
        }
        self.old_style
    }

    /// The score, which can be below zero for a value in the old layout.
    pub fn signed_points(&self) -> (r: i64)
        ensures
            r == self@.points(),
    {
        2 * (self.solved as i64) - (self.attempted as i64)
    }

    /// The number of cubes failed, which can be below zero for a value in the old layout.
    pub fn signed_failed(&self) -> (r: i64)
        ensures
            r == self@.failed(),
    {
        (self.attempted as i64) - (self.solved as i64)
    }

    /// Packs this value into a number again, in the layout that it came in.
    pub fn encode(&self) -> (r: i64)
        ensures
            r == self@.encode(),
            0 <= r < 2_000_000_000,
            self@.wf(),
    {
        proof {
            use_type_invariant(self);
        }
        if self.old_style {
            let packed: u32 = 1_000_000_000 + (99 - self.solved) * 10_000_000 + self.attempted
                * 100_000 + self.time;
            packed as i64
        } else {
            let failed: u32 = self.attempted - self.solved;
            let points: u32 = self.solved - failed;
            let packed: u32 = (99 - points) * 10_000_000 + self.time * 100 + failed;
            packed as i64
        }
    }
}

impl vstd::std_specs::convert::FromSpecImpl<CentiSecondAttemptResultValue> for MultiBlindAttemptResultValue {
    open spec fn obeys_from_spec() -> bool {
        true
    }

    open spec fn from_spec(value: CentiSecondAttemptResultValue) -> Self {
        MultiBlindAttemptResultValue::of_view(decode_multi_blind(value as nat))
    }
}

impl From<CentiSecondAttemptResultValue> for MultiBlindAttemptResultValue {
    /// Unpacks a number.
    fn from(value: CentiSecondAttemptResultValue) -> (r: Self)
        ensures
            r@ == decode_multi_blind(value as nat),
    {
        MultiBlindAttemptResultValue::from_raw(value)
    }
}

/// Every packed number unpacks to a well-formed value.
pub proof fn lemma_decode_multi_blind_wf(raw: u32)
    ensures
        decode_multi_blind(raw as nat).wf(),
{
}

/// In the current layout nothing is below zero: the cubes failed are the
/// cubes missed, and the score is what the leading digits say.
pub proof fn lemma_current_layout(v: MultiBlindView)
    requires
        v.wf(),
        !v.old_style,
    ensures
        v.solved <= v.attempted,
        0 <= v.failed() <= v.solved,
{
}

/// Packing is the inverse of unpacking: a number below `2_000_000_000` is
/// packed again as itself. (From there on the old layout has a digit that
/// nothing reads.)
pub proof fn lemma_multi_blind_encode_decode(raw: u32)
    requires
        raw < 2_000_000_000,
    ensures
        decode_multi_blind(raw as nat).encode() == raw,
{
}

/// Unpacking is the inverse of packing: a well-formed value is unpacked
/// again as itself, in the layout that it came in.
pub proof fn lemma_multi_blind_decode_encode(v: MultiBlindView)
    requires
        v.wf(),
    ensures
        0 <= v.encode() < 2_000_000_000,
        v.old_style <==> v.encode() >= 1_000_000_000,
        decode_multi_blind(v.encode() as nat) == v,
{
    let raw = v.encode();
    if v.old_style {
        let lead = 100 + (99 - v.solved);
        let rest = lead * 100 + v.attempted;
        assert(raw == rest * 100_000 + v.time);
        assert(raw / 100_000 == rest && raw % 100_000 == v.time);
        assert(rest / 100 == lead && rest % 100 == v.attempted);
        assert(lead % 100 == 99 - v.solved);
    } else {
        let lead = 99 - v.points();
        let rest = lead * 100_000 + v.time;
        assert(raw == rest * 100 + v.failed());
        assert(raw / 100 == rest && raw % 100 == v.failed());
        assert(rest / 100_000 == lead && rest % 100_000 == v.time);
    }
}

} // verus!
