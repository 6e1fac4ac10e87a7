//! Activity codes: what a slot of the schedule is for.
//!
//! An official code names an event and, optionally, a round, a group and an
//! attempt of it: `333-r1-g2-a3`. Every other code starts with `other-`.
//!
//! The types are here; [`grammar`] reads and writes them, [`order`] compares
//! two codes by how much they pin down, and [`round_trip`] shows that what
//! is written is read back.

use vstd::prelude::*;
use vstd::string::*;
use crate::puzzle_types::OfficialEventId;

pub mod grammar;
pub mod order;
pub mod round_trip;

pub use grammar::ActivityCodeParseError;

verus! {

/// The number of a round within its event.
pub type RoundIdType = u32;

/// The number of a group within its round.
pub type GroupIdType = u32;

/// The number of an attempt within its group.
pub type AttemptIdType = u8;

/// What names the event of an activity code: a type with a textual code.
pub trait EventIdentifier: Sized {
    /// The text that stands for this event in an activity code.
    spec fn event_code(&self) -> Seq<char>;

    /// Whether `s` is the code of an event of this type.
    spec fn is_event_code(s: Seq<char>) -> bool;

    /// The code of an event is a code.
    proof fn lemma_event_code(&self)
        ensures
            Self::is_event_code(self.event_code()),
    ;

    /// Reads an event from its code.
    fn from_token(s: &str) -> (r: Option<Self>)
        ensures
            r is Some <==> Self::is_event_code(s@),
            r matches Some(e) ==> e.event_code() == s@,
    ;

    /// Writes the code of this event.
    fn to_token(&self) -> (r: String)
        ensures
            r@ == self.event_code(),
    ;

    /// Whether two events are the same.
    fn same_event(&self, other: &Self) -> (r: bool)
        ensures
            r == (self.event_code() == other.event_code()),
    ;

    /// A copy of this event.
    fn duplicate(&self) -> (r: Self)
        ensures
            r == *self,
    ;
}

/// Any text names an event: the loose identifier of unofficial codes.
impl EventIdentifier for String {
    open spec fn event_code(&self) -> Seq<char> {
        self@
    }

    open spec fn is_event_code(s: Seq<char>) -> bool {
        true
    }

    proof fn lemma_event_code(&self) {
    }

    fn from_token(s: &str) -> (r: Option<Self>) {
        Some(String::from_str(s))
    }

    fn to_token(&self) -> (r: String) {
        self.clone()
    }

    fn same_event(&self, other: &Self) -> (r: bool) {
        *self == *other
    }

    fn duplicate(&self) -> (r: Self) {
        self.clone()
    }
}

/// The events of the regulations, by their codes.
impl EventIdentifier for OfficialEventId {
    open spec fn event_code(&self) -> Seq<char> {
        self.code()
    }

    open spec fn is_event_code(s: Seq<char>) -> bool {
        OfficialEventId::from_code(s) is Some
    }

    proof fn lemma_event_code(&self) {
        self.lemma_code_round_trip();
    }

    fn from_token(s: &str) -> (r: Option<Self>) {
        match OfficialEventId::from_str(s) {
            Ok(e) => Some(e),
            Err(_) => None,
        }
    }

    fn to_token(&self) -> (r: String) {
        self.to_string()
    }

    fn same_event(&self, other: &Self) -> (r: bool) {
        proof {
            self.lemma_code_injective(*other);
        }
        *self == *other
    }

    fn duplicate(&self) -> (r: Self) {
        *self
    }
}

/// An event with, optionally, a round, a group and an attempt of it.
#[derive(Clone, Debug, PartialEq, Eq, Hash)]
pub struct EventActivityCode<E: EventIdentifier> {
    pub event: E,
    pub round: Option<RoundIdType>,
    pub group: Option<GroupIdType>,
    pub attempt: Option<AttemptIdType>,
}

/// A round of an event.
#[derive(Clone, Debug, PartialEq, Eq, Hash)]
pub struct RoundId<E: EventIdentifier> {
    pub event: E,
    pub round: RoundIdType,
}

/// A code that names no event of the regulations.
#[derive(Clone, Debug, PartialEq, Eq, Hash)]
pub enum UnofficialActivityCode {
    Registration,
    Checkin,
    Tutorial,
    MultiSubmission,
    Breakfast,
    Lunch,
    Dinner,
    Awards,
    /// An event outside the regulations, named by any text.
    Event(EventActivityCode<String>),
    /// Anything else, with an optional label.
    Misc(Option<String>),
    /// A text that is none of the above. It is read but never written by
    /// choice: a text that a later keyword claims would be read as that keyword.
    Other(String),
}

/// What a slot of the schedule is for.
#[derive(Clone, Debug, PartialEq, Eq, Hash)]
pub enum ActivityCode {
    Official(EventActivityCode<OfficialEventId>),
    Unofficial(UnofficialActivityCode),
}

/// An `EventActivityCode`, with the event as its code.
pub struct EventActivityCodeView {
    pub event: Seq<char>,
    pub round: Option<RoundIdType>,
    pub group: Option<GroupIdType>,
    pub attempt: Option<AttemptIdType>,
}

/// A `RoundId`, with the event as its code.
pub struct RoundIdView {
    pub event: Seq<char>,
    pub round: RoundIdType,
}

/// An `UnofficialActivityCode`, with its texts as character sequences.
pub enum UnofficialActivityCodeView {
    Registration,
    Checkin,
    Tutorial,
    MultiSubmission,
    Breakfast,
    Lunch,
    Dinner,
    Awards,
    Event(EventActivityCodeView),
    Misc(Option<Seq<char>>),
    Other(Seq<char>),
}

/// An `ActivityCode`, with its texts as character sequences.
pub enum ActivityCodeView {
    Official(EventActivityCodeView),
    Unofficial(UnofficialActivityCodeView),
}

impl<E: EventIdentifier> View for EventActivityCode<E> {
    type V = EventActivityCodeView;

    open spec fn view(&self) -> EventActivityCodeView {
        EventActivityCodeView {
            event: self.event.event_code(),
            round: self.round,
            group: self.group,
            attempt: self.attempt,
        }
    }
}

impl<E: EventIdentifier> View for RoundId<E> {
    type V = RoundIdView;

    open spec fn view(&self) -> RoundIdView {
        RoundIdView { event: self.event.event_code(), round: self.round }
    }
}

impl View for UnofficialActivityCode {
    type V = UnofficialActivityCodeView;

    open spec fn view(&self) -> UnofficialActivityCodeView {
        match self {
            UnofficialActivityCode::Registration => UnofficialActivityCodeView::Registration,
            UnofficialActivityCode::Checkin => UnofficialActivityCodeView::Checkin,
            UnofficialActivityCode::Tutorial => UnofficialActivityCodeView::Tutorial,
            UnofficialActivityCode::MultiSubmission => UnofficialActivityCodeView::MultiSubmission,
            UnofficialActivityCode::Breakfast => UnofficialActivityCodeView::Breakfast,
            UnofficialActivityCode::Lunch => UnofficialActivityCodeView::Lunch,
            UnofficialActivityCode::Dinner => UnofficialActivityCodeView::Dinner,
            UnofficialActivityCode::Awards => UnofficialActivityCodeView::Awards,
            UnofficialActivityCode::Event(e) => UnofficialActivityCodeView::Event(e@),
            UnofficialActivityCode::Misc(Some(x)) => UnofficialActivityCodeView::Misc(Some(x@)),
            UnofficialActivityCode::Misc(None) => UnofficialActivityCodeView::Misc(None),
            UnofficialActivityCode::Other(x) => UnofficialActivityCodeView::Other(x@),
        }
    }
}

impl View for ActivityCode {
    type V = ActivityCodeView;

    open spec fn view(&self) -> ActivityCodeView {
        match self {
            ActivityCode::Official(c) => ActivityCodeView::Official(c@),
            ActivityCode::Unofficial(c) => ActivityCodeView::Unofficial(c@),
        }
    }
}

impl RoundIdView {
    /// The code of the round alone: the event and the round, nothing else.
    pub open spec fn widen(self) -> EventActivityCodeView {
        EventActivityCodeView { event: self.event, round: Some(self.round), group: None, attempt: None }
    }
}

impl<E: EventIdentifier> RoundId<E> {
    /// The code of this round alone: the event and the round, nothing else.
    pub open spec fn widen(&self) -> EventActivityCode<E> {
        EventActivityCode { event: self.event, round: Some(self.round), group: None, attempt: None }
    }
}

impl<E: EventIdentifier> EventActivityCode<E> {
    /// The code of an event alone.
    pub fn from_event(event: &E) -> (r: Self)
        ensures
            r == (EventActivityCode { event: *event, round: None, group: None, attempt: None }),
    {
        EventActivityCode { event: event.duplicate(), round: None, group: None, attempt: None }
    }

    /// The code of a round alone.
    pub fn from_round_id(value: &RoundId<E>) -> (r: Self)
        ensures
            r == value.widen(),
            r@ == value@.widen(),
    {
        EventActivityCode {
            event: value.event.duplicate(),
            round: Some(value.round),
            group: None,
            attempt: None,
        }
    }
}

impl<E: EventIdentifier> vstd::std_specs::convert::FromSpecImpl<&RoundId<E>> for EventActivityCode<E> {
    open spec fn obeys_from_spec() -> bool {
        true
    }

    open spec fn from_spec(value: &RoundId<E>) -> Self {
        value.widen()
    }
}

impl<E: EventIdentifier> From<&RoundId<E>> for EventActivityCode<E> {
    /// The code of a round alone.
    fn from(value: &RoundId<E>) -> (r: Self) {
        EventActivityCode::from_round_id(value)
    }
}

impl<E: EventIdentifier> vstd::std_specs::convert::FromSpecImpl<&E> for EventActivityCode<E> {
    open spec fn obeys_from_spec() -> bool {
        true
    }

    open spec fn from_spec(value: &E) -> Self {
        EventActivityCode { event: *value, round: None, group: None, attempt: None }
    }
}

impl<E: EventIdentifier> From<&E> for EventActivityCode<E> {
    /// The code of an event alone.
    fn from(value: &E) -> (r: Self) {
        EventActivityCode::from_event(value)
    }
}

impl vstd::std_specs::convert::FromSpecImpl<&EventActivityCode<OfficialEventId>> for OfficialEventId {
    open spec fn obeys_from_spec() -> bool {
        true
    }

    open spec fn from_spec(value: &EventActivityCode<OfficialEventId>) -> Self {
        value.event
    }
}

impl From<&EventActivityCode<OfficialEventId>> for OfficialEventId {
    /// The event of a code.
    fn from(value: &EventActivityCode<OfficialEventId>) -> (r: Self) {
        value.event
    }
}

impl ActivityCode {
    /// Whether this is the code of an event of the regulations.
    pub fn is_official(&self) -> (r: bool)
        ensures
            r == (self@ is Official),
    {
        if let Self::Official(_) = self {
            return true
        }
        return false
    }
}

} // verus!
