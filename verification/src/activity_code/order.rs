//! The order of activity codes by specificity.
//!
//! A code is less than a second one if it is the more general of the two:
//! it names the same event, and leaves open or states alike each of round,
//! group and attempt. Codes of which neither is the more general are not
//! comparable.

use vstd::prelude::*;
use std::cmp::Ordering;
use crate::activity_code::{EventActivityCode, EventActivityCodeView, EventIdentifier, RoundId};
use crate::puzzle_types::OfficialEventId;

verus! {

/// Whether a field that is `a` on one side says no more than `b` on the other:
/// it is absent, or the two agree.
pub open spec fn field_covers<T>(a: Option<T>, b: Option<T>) -> bool {
    a is None || a == b
}

impl EventActivityCodeView {
    /// Whether `self` names everything that `other` names: the same event, and
    /// each of round, group and attempt either left open or the same.
    pub open spec fn covers(self, other: EventActivityCodeView) -> bool {
        &&& self.event == other.event
        &&& field_covers(self.round, other.round)
        &&& field_covers(self.group, other.group)
        &&& field_covers(self.attempt, other.attempt)
    }

    /// The order by specificity. The more general code is the lesser one.
    /// Codes of different events, codes that differ in a field that both
    /// state, and codes of which each states a field that the other leaves
    /// open, are not comparable.
    pub open spec fn specificity(self, other: EventActivityCodeView) -> Option<Ordering> {
        if self == other {
            Some(Ordering::Equal)
        } else if self.covers(other) {
            Some(Ordering::Less)
        } else if other.covers(self) {
            Some(Ordering::Greater)
        } else {
            None
        }
    }
}

/// How far two codes have been found to agree, field by field.
#[derive(Clone, Copy, Debug, PartialEq, Eq, Structural)]
enum Direction {
    /// No field differed so far.
    Unknown,
    /// Each field that differed was stated by the first code alone.
    FirstMoreSpecific,
    /// Each field that differed was stated by the second code alone.
    SecondMoreSpecific,
    /// The codes contradict each other.
    Incomparable,
}

impl Direction {
    /// What a direction says of the codes so far: whether the first covers
    /// the second, and whether the second covers the first.
    spec fn agrees(self, first_covers: bool, second_covers: bool) -> bool {
        match self {
            Direction::Unknown => first_covers && second_covers,
            Direction::FirstMoreSpecific => !first_covers && second_covers,
            Direction::SecondMoreSpecific => first_covers && !second_covers,
            Direction::Incomparable => !first_covers && !second_covers,
        }
    }

    /// The direction after one more field, which is stated (`true`) or left
    /// open (`false`) on each side, and the same on both sides or not.
    fn step(self, first_states: bool, second_states: bool, same: bool) -> (r: Direction)
        requires
            same ==> first_states == second_states,
            !first_states && !second_states ==> same,
        ensures
            forall|a: bool, b: bool|
                self.agrees(a, b) ==> r.agrees(
                    a && (!first_states || same),
                    b && (!second_states || same),
                ),
    {
        if same {
            self
        } else if first_states && second_states {
            Direction::Incomparable
        } else if first_states {
            match self {
                Direction::Unknown | Direction::FirstMoreSpecific => Direction::FirstMoreSpecific,
                _ => Direction::Incomparable,
            }
        } else {
            match self {
                Direction::Unknown | Direction::SecondMoreSpecific => Direction::SecondMoreSpecific,
                _ => Direction::Incomparable,
            }
        }
    }
}

/// Whether two optional numbers are the same.
fn same_u32(a: Option<u32>, b: Option<u32>) -> (r: bool)
    ensures
        r == (a == b),
{
    match (a, b) {
        (Some(x), Some(y)) => x == y,
        (None, None) => true,
        _ => false,
    }
}

/// Whether two optional small numbers are the same.
fn same_u8(a: Option<u8>, b: Option<u8>) -> (r: bool)
    ensures
        r == (a == b),
{
    match (a, b) {
        (Some(x), Some(y)) => x == y,
        (None, None) => true,
        _ => false,
    }
}

impl<E: EventIdentifier> EventActivityCode<E> {
    /// Compares two codes by specificity, field by field in the order round, group, attempt.
    pub fn compare(&self, other: &Self) -> (r: Option<Ordering>)
        ensures
            r == self@.specificity(other@),
    {
        if !self.event.same_event(&other.event) {
            return None;
        }
        let d0 = Direction::Unknown;
        let d1 = d0.step(
            self.round.is_some(),
            other.round.is_some(),
            same_u32(self.round, other.round),
        );
        let d2 = d1.step(
            self.group.is_some(),
            other.group.is_some(),
            same_u32(self.group, other.group),
        );
        let d3 = d2.step(
            self.attempt.is_some(),
            other.attempt.is_some(),
            same_u8(self.attempt, other.attempt),
        );
        proof {
            assert(d0.agrees(true, true));
            assert(d3.agrees(self@.covers(other@), other@.covers(self@)));
            if d3 == Direction::Unknown {
                assert(self@ == other@);
            }
        }
        match d3 {
            Direction::Unknown => Some(Ordering::Equal),
            Direction::FirstMoreSpecific => Some(Ordering::Greater),
            Direction::SecondMoreSpecific => Some(Ordering::Less),
            Direction::Incomparable => None,
        }
    }
}

impl<E: EventIdentifier + PartialEq> vstd::std_specs::cmp::PartialOrdSpecImpl for EventActivityCode<E> {
    open spec fn obeys_partial_cmp_spec() -> bool {
        true
    }

    open spec fn partial_cmp_spec(&self, other: &Self) -> Option<Ordering> {
        self@.specificity(other@)
    }
}

impl<E: EventIdentifier + PartialEq> PartialOrd for EventActivityCode<E> {
    fn partial_cmp(&self, other: &Self) -> (r: Option<Ordering>) {
        self.compare(other)
    }
}

impl<E: EventIdentifier> RoundId<E> {
    /// Compares this round with a code by specificity, as the code of the round alone.
    pub fn compare_code(&self, other: &EventActivityCode<E>) -> (r: Option<Ordering>)
        ensures
            r == self@.widen().specificity(other@),
    {
        EventActivityCode::from_round_id(self).compare(other)
    }

    /// Whether a code is the code of this round alone.
    pub fn is_code(&self, other: &EventActivityCode<E>) -> (r: bool)
        ensures
            r == (self@.widen() == other@),
    {
        match self.compare_code(other) {
            Some(Ordering::Equal) => true,
            _ => false,
        }
    }
}

impl<E: EventIdentifier> vstd::std_specs::cmp::PartialEqSpecImpl<EventActivityCode<E>> for RoundId<E> {
    open spec fn obeys_eq_spec() -> bool {
        true
    }

    open spec fn eq_spec(&self, other: &EventActivityCode<E>) -> bool {
        self@.widen() == other@
    }
}

impl<E: EventIdentifier> PartialEq<EventActivityCode<E>> for RoundId<E> {
    /// Whether a code is the code of this round alone.
    fn eq(&self, other: &EventActivityCode<E>) -> (r: bool) {
        self.is_code(other)
    }
}

impl<E: EventIdentifier> vstd::std_specs::cmp::PartialOrdSpecImpl<EventActivityCode<E>> for RoundId<E> {
    open spec fn obeys_partial_cmp_spec() -> bool {
        true
    }

    open spec fn partial_cmp_spec(&self, other: &EventActivityCode<E>) -> Option<Ordering> {
        self@.widen().specificity(other@)
    }
}

impl<E: EventIdentifier> PartialOrd<EventActivityCode<E>> for RoundId<E> {
    /// Compares this round with a code by specificity, as the code of the round alone.
    fn partial_cmp(&self, other: &EventActivityCode<E>) -> (r: Option<Ordering>) {
        self.compare_code(other)
    }
}

/// Codes of different events are never comparable.
pub proof fn lemma_different_events_incomparable(a: EventActivityCodeView, b: EventActivityCodeView)
    requires
        a.event != b.event,
    ensures
        a.specificity(b) is None,
{
}

/// Official codes of different events are never comparable, whatever their
/// rounds, groups and attempts are.
pub proof fn lemma_different_official_events_incomparable(
    a: EventActivityCode<OfficialEventId>,
    b: EventActivityCode<OfficialEventId>,
)
    requires
        a.event != b.event,
    ensures
        a@.specificity(b@) is None,
{
    a.event.lemma_code_injective(b.event);
}

/// Codes of events that are named by different texts are never comparable,
/// whatever their rounds, groups and attempts are.
pub proof fn lemma_different_loose_events_incomparable(
    a: EventActivityCode<String>,
    b: EventActivityCode<String>,
)
    requires
        a.event@ != b.event@,
    ensures
        a@.specificity(b@) is None,
{
}

/// Every code equals itself, and only itself.
pub proof fn lemma_specificity_equal(a: EventActivityCodeView, b: EventActivityCodeView)
    ensures
        a.specificity(b) == Some(Ordering::Equal) <==> a == b,
{
}

/// Swapping the two codes swaps less and greater.
pub proof fn lemma_specificity_antisymmetric(a: EventActivityCodeView, b: EventActivityCodeView)
    ensures
        a.specificity(b) == Some(Ordering::Less) <==> b.specificity(a) == Some(Ordering::Greater),
        a.specificity(b) is None <==> b.specificity(a) is None,
{
}

/// A code that is more general than a second, which is more general than a
/// third, is more general than the third.
pub proof fn lemma_specificity_transitive(
    a: EventActivityCodeView,
    b: EventActivityCodeView,
    c: EventActivityCodeView,
)
    requires
        a.specificity(b) == Some(Ordering::Less),
        b.specificity(c) == Some(Ordering::Less),
    ensures
        a.specificity(c) == Some(Ordering::Less),
{
}

} // verus!
