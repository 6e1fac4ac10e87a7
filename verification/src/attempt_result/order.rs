//! Which of two attempt results is the better one.
//!
//! The better result is the greater one. A success is better than any
//! other outcome, and the other outcomes are all equal. Of two times or
//! two numbers of moves the lower is the better; of two results of the
//! multiple-blindfolded event the one with more points, then the one with
//! less time, then the one with fewer cubes failed.

use vstd::prelude::*;
use std::cmp::Ordering;
use crate::attempt_result::{
    AttemptResult, CentiSecondAttemptResultValue, FMCAttemptResultValue,
    MultiBlindAttemptResultValue, MultiBlindView,
};

verus! {

impl MultiBlindView {
    /// Which of two results is the better one: `Greater` if it is `self`.
    /// More points are better; with equal points, less time; with equal
    /// time too, fewer cubes failed.
    pub open spec fn rank(self, other: MultiBlindView) -> Ordering {
        if self.points() > other.points() {
            Ordering::Greater
        } else if self.points() < other.points() {
            Ordering::Less
        } else if self.time < other.time {
            Ordering::Greater
        } else if self.time > other.time {
            Ordering::Less
        } else if self.failed() < other.failed() {
            Ordering::Greater
        } else if self.failed() > other.failed() {
            Ordering::Less
        } else {
            Ordering::Equal
        }
    }
}

/// Which of two outcomes is the better one, `better` comparing two
/// successes: `Greater` if it is the first. A success is better than any
/// other outcome, and the other outcomes are all equal.
pub open spec fn rank_attempt_results<V>(
    a: AttemptResult<V>,
    b: AttemptResult<V>,
    better: spec_fn(V, V) -> Ordering,
) -> Ordering {
    match (a, b) {
        (AttemptResult::Success(x), AttemptResult::Success(y)) => better(x, y),
        (AttemptResult::Success(_), _) => Ordering::Greater,
        (_, AttemptResult::Success(_)) => Ordering::Less,
        _ => Ordering::Equal,
    }
}

/// Which of two times is the better one: the lower.
pub open spec fn rank_times(a: u32, b: u32) -> Ordering {
    if a < b {
        Ordering::Greater
    } else if a == b {
        Ordering::Equal
    } else {
        Ordering::Less
    }
}

/// Which of two numbers of moves is the better one: the lower.
pub open spec fn rank_moves(a: u16, b: u16) -> Ordering {
    if a < b {
        Ordering::Greater
    } else if a == b {
        Ordering::Equal
    } else {
        Ordering::Less
    }
}

impl MultiBlindAttemptResultValue {
    /// Compares two results: `Greater` if `self` is the better one.
    pub fn rank(&self, other: &Self) -> (r: Ordering)
        ensures
            r == self@.rank(other@),
    {
        let points = self.signed_points();
        let other_points = other.signed_points();
        let failed = self.signed_failed();
        let other_failed = other.signed_failed();
        let time = self.seconds();
        let other_time = other.seconds();
        if points > other_points {
            Ordering::Greater
        } else if points < other_points {
            Ordering::Less
        } else if time < other_time {
            Ordering::Greater
        } else if time > other_time {
            Ordering::Less
        } else if failed < other_failed {
            Ordering::Greater
        } else if failed > other_failed {
            Ordering::Less
        } else {
            Ordering::Equal
        }
    }
}

impl vstd::std_specs::cmp::PartialOrdSpecImpl for MultiBlindAttemptResultValue {
    open spec fn obeys_partial_cmp_spec() -> bool {
        true
    }

    open spec fn partial_cmp_spec(&self, other: &Self) -> Option<Ordering> {
        Some(self@.rank(other@))
    }
}

impl PartialOrd for MultiBlindAttemptResultValue {
    /// Compares two results: `Greater` if `self` is the better one.
    fn partial_cmp(&self, other: &Self) -> (r: Option<Ordering>) {
        Some(self.rank(other))
    }
}

impl vstd::std_specs::cmp::PartialOrdSpecImpl for AttemptResult<CentiSecondAttemptResultValue> {
    open spec fn obeys_partial_cmp_spec() -> bool {
        true
    }

    open spec fn partial_cmp_spec(&self, other: &Self) -> Option<Ordering> {
        Some(rank_attempt_results(*self, *other, |a: u32, b: u32| rank_times(a, b)))
    }
}

impl PartialOrd for AttemptResult<CentiSecondAttemptResultValue> {
    /// Compares two outcomes: `Greater` if `self` is the better one.
    fn partial_cmp(&self, other: &Self) -> (r: Option<Ordering>) {
        Some(
            match (*self, *other) {
                (Self::Success(a), Self::Success(b)) => if a < b {
                    Ordering::Greater
                } else if a == b {
                    Ordering::Equal
                } else {
                    Ordering::Less
                },
                (Self::Success(_), _) => Ordering::Greater,
                (_, Self::Success(_)) => Ordering::Less,
                _ => Ordering::Equal,
            },
        )
    }
}

impl vstd::std_specs::cmp::PartialOrdSpecImpl for AttemptResult<FMCAttemptResultValue> {
    open spec fn obeys_partial_cmp_spec() -> bool {
        true
    }

    open spec fn partial_cmp_spec(&self, other: &Self) -> Option<Ordering> {
        Some(rank_attempt_results(*self, *other, |a: u16, b: u16| rank_moves(a, b)))
    }
}

impl PartialOrd for AttemptResult<FMCAttemptResultValue> {
    /// Compares two outcomes: `Greater` if `self` is the better one.
    fn partial_cmp(&self, other: &Self) -> (r: Option<Ordering>) {
        Some(
            match (*self, *other) {
                (Self::Success(a), Self::Success(b)) => if a < b {
                    Ordering::Greater
                } else if a == b {
                    Ordering::Equal
                } else {
                    Ordering::Less
                },
                (Self::Success(_), _) => Ordering::Greater,
                (_, Self::Success(_)) => Ordering::Less,
                _ => Ordering::Equal,
            },
        )
    }
}

impl vstd::std_specs::cmp::PartialOrdSpecImpl for AttemptResult<MultiBlindAttemptResultValue> {
    open spec fn obeys_partial_cmp_spec() -> bool {
        true
    }

    open spec fn partial_cmp_spec(&self, other: &Self) -> Option<Ordering> {
        Some(
            rank_attempt_results(
                self@,
                other@,
                |a: MultiBlindView, b: MultiBlindView| a.rank(b),
            ),
        )
    }
}

impl PartialOrd for AttemptResult<MultiBlindAttemptResultValue> {
    /// Compares two outcomes: `Greater` if `self` is the better one.
    fn partial_cmp(&self, other: &Self) -> (r: Option<Ordering>) {
        Some(
            match (self, other) {
                (Self::Success(a), Self::Success(b)) => a.rank(b),
                (Self::Success(_), _) => Ordering::Greater,
                (_, Self::Success(_)) => Ordering::Less,
                _ => Ordering::Equal,
            },
        )
    }
}

/// The results of the multiple-blindfolded event are in a total order, in
/// which two results are equal exactly if they agree in the cubes solved,
/// the cubes attempted and the time.
pub proof fn lemma_multi_blind_rank_order(a: MultiBlindView, b: MultiBlindView, c: MultiBlindView)
    ensures
        a.rank(b) == Ordering::Equal <==> a.solved == b.solved && a.attempted == b.attempted
            && a.time == b.time,
        a.rank(b) == Ordering::Greater <==> b.rank(a) == Ordering::Less,
        a.rank(b) == Ordering::Greater && b.rank(c) == Ordering::Greater ==> a.rank(c)
            == Ordering::Greater,
        a.rank(b) == Ordering::Equal ==> a.rank(c) == b.rank(c),
{
}

/// The outcomes without success are all equal, and a success is better than each of them.
pub proof fn lemma_success_outranks<V>(
    a: AttemptResult<V>,
    b: AttemptResult<V>,
    better: spec_fn(V, V) -> Ordering,
)
    ensures
        !(a is Success) && !(b is Success) ==> rank_attempt_results(a, b, better)
            == Ordering::Equal,
        a is Success && !(b is Success) ==> rank_attempt_results(a, b, better)
            == Ordering::Greater,
        !(a is Success) && b is Success ==> rank_attempt_results(a, b, better) == Ordering::Less,
{
}

} // verus!
