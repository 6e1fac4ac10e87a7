//! The grammar of activity codes: how a code is read from a text and
//! written as one.
//!
//! ```text
//! activity-code := official | "other-" unofficial
//! official      := event ("-r" round)? ("-g" group)? ("-a" attempt)?
//! unofficial    := keyword | "misc" ("-" label)? | "unofficial-" official
//! ```

use vstd::prelude::*;
use vstd::string::*;
use crate::activity_code::{
    ActivityCode, ActivityCodeView, EventActivityCode, EventActivityCodeView, EventIdentifier,
    RoundId, RoundIdView, UnofficialActivityCode, UnofficialActivityCodeView,
};
use crate::puzzle_types::OfficialEventId;
use crate::text::{
    after_token, char_count, chars_of, decimal, format_decimal, head_token, parse_u32,
    parse_u32_spec, parse_u8, parse_u8_spec, result_view, spells, split_first, starts_with,
    text_after, text_view, ParseIntError,
};

verus! {

/// Why a text is not an activity code.
#[derive(Clone, Copy, Debug, PartialEq, Eq, Hash, Structural)]
pub enum ActivityCodeParseError {
    /// The text before the first `-` is empty, and no event has the empty code.
    MissingEventId,
    /// The text before the first `-` is not empty, and not the code of an event.
    InvalidEventId,
    /// What follows the event of a round does not start with `r`.
    MissingRoundPrefix,
    /// A round has no `-` in it, or a code goes on with a token that is none
    /// of round, group and attempt in this order.
    InvalidFormat,
    /// The number of a round, group or attempt is not a decimal number that fits.
    ParseIntError(ParseIntError),
}

impl ActivityCodeParseError {
    /// The message of this error.
    pub open spec fn message(self) -> Seq<char> {
        match self {
            ActivityCodeParseError::MissingEventId => "Missing event id"@,
            ActivityCodeParseError::InvalidEventId => "Not a valid event"@,
            ActivityCodeParseError::MissingRoundPrefix => "missing round prefix"@,
            ActivityCodeParseError::InvalidFormat => "invalid format"@,
            ActivityCodeParseError::ParseIntError(e) => e.message(),
        }
    }

    /// Renders the message of this error.
    pub fn to_string(&self) -> (r: String)
        ensures
            r@ == self.message(),
    {
        match self {
            ActivityCodeParseError::MissingEventId => String::from_str("Missing event id"),
            ActivityCodeParseError::InvalidEventId => String::from_str("Not a valid event"),
            ActivityCodeParseError::MissingRoundPrefix => String::from_str("missing round prefix"),
            ActivityCodeParseError::InvalidFormat => String::from_str("invalid format"),
            ActivityCodeParseError::ParseIntError(e) => e.to_string(),
        }
    }
}

/// A numbered field at the front of `rest`: if the first token of `rest`
/// starts with `letter`, what stands behind the letter, and what follows the token.
pub open spec fn take_field(rest: Option<Seq<char>>, letter: char) -> Option<
    (Seq<char>, Option<Seq<char>>),
> {
    match rest {
        Some(r) => {
            let token = head_token(r, '-');
            if token.len() > 0 && token[0] == letter {
                Some((token.skip(1), after_token(r, '-')))
            } else {
                None
            }
        },
        None => None,
    }
}

/// What is left of `rest` once the field with `letter`, if it stands in front, is taken.
pub open spec fn skip_field(rest: Option<Seq<char>>, letter: char) -> Option<Seq<char>> {
    match take_field(rest, letter) {
        Some(f) => f.1,
        None => rest,
    }
}

/// The number of a round or group field, if the field is there.
pub open spec fn field_u32(field: Option<(Seq<char>, Option<Seq<char>>)>) -> Result<
    Option<u32>,
    ActivityCodeParseError,
> {
    match field {
        None => Ok(None),
        Some(f) => match parse_u32_spec(f.0) {
            Ok(v) => Ok(Some(v)),
            Err(e) => Err(ActivityCodeParseError::ParseIntError(e)),
        },
    }
}

/// The number of an attempt field, if the field is there.
pub open spec fn field_u8(field: Option<(Seq<char>, Option<Seq<char>>)>) -> Result<
    Option<u8>,
    ActivityCodeParseError,
> {
    match field {
        None => Ok(None),
        Some(f) => match parse_u8_spec(f.0) {
            Ok(v) => Ok(Some(v)),
            Err(e) => Err(ActivityCodeParseError::ParseIntError(e)),
        },
    }
}

/// Round, group and attempt as they follow an event. A round is read only
/// from a token that starts with `r`, then a group only from one that starts
/// with `g`. A token that is left after that must be an attempt, starting
/// with `a`; whatever follows the attempt is not looked at.
pub open spec fn parse_fields(rest: Option<Seq<char>>) -> Result<
    (Option<u32>, Option<u32>, Option<u8>),
    ActivityCodeParseError,
> {
    let after_round = skip_field(rest, 'r');
    let after_group = skip_field(after_round, 'g');
    match field_u32(take_field(rest, 'r')) {
        Err(e) => Err(e),
        Ok(round) => match field_u32(take_field(after_round, 'g')) {
            Err(e) => Err(e),
            Ok(group) => if after_group is Some && take_field(after_group, 'a') is None {
                Err(ActivityCodeParseError::InvalidFormat)
            } else {
                match field_u8(take_field(after_group, 'a')) {
                    Err(e) => Err(e),
                    Ok(attempt) => Ok((round, group, attempt)),
                }
            },
        },
    }
}

/// Why `event` is refused as the code of an event.
pub open spec fn event_error(event: Seq<char>) -> ActivityCodeParseError {
    if event.len() == 0 {
        ActivityCodeParseError::MissingEventId
    } else {
        ActivityCodeParseError::InvalidEventId
    }
}

/// The code that `s` spells, with events of type `E`: the tokens between
/// the `-`, the first of them the event. Which texts are events is for `E`
/// to say, the empty text too.
pub open spec fn parse_event_activity_code<E: EventIdentifier>(s: Seq<char>) -> Result<
    EventActivityCodeView,
    ActivityCodeParseError,
> {
    let event = head_token(s, '-');
    if !E::is_event_code(event) {
        Err(event_error(event))
    } else {
        match parse_fields(after_token(s, '-')) {
            Err(e) => Err(e),
            Ok(f) => Ok(EventActivityCodeView { event, round: f.0, group: f.1, attempt: f.2 }),
        }
    }
}

/// The round that `s` spells, with events of type `E`: the event, a `-`, an
/// `r` and the number of the round, with nothing behind it.
pub open spec fn parse_round_id<E: EventIdentifier>(s: Seq<char>) -> Result<
    RoundIdView,
    ActivityCodeParseError,
> {
    let event = head_token(s, '-');
    match after_token(s, '-') {
        None => Err(ActivityCodeParseError::InvalidFormat),
        Some(round) => if !E::is_event_code(event) {
            Err(event_error(event))
        } else if !(round.len() > 0 && round[0] == 'r') {
            Err(ActivityCodeParseError::MissingRoundPrefix)
        } else {
            match parse_u32_spec(round.skip(1)) {
                Ok(v) => Ok(RoundIdView { event, round: v }),
                Err(e) => Err(ActivityCodeParseError::ParseIntError(e)),
            }
        },
    }
}

/// The unofficial code that `s` spells, `s` being what stands behind `other-`.
/// A keyword is itself; `unofficial-` goes before an event-shaped code with
/// any text for the event; `misc-` goes before a label. Any other text is
/// taken as it is.
pub open spec fn parse_unofficial_activity_code(s: Seq<char>) -> Result<
    UnofficialActivityCodeView,
    ActivityCodeParseError,
> {
    if s == "registration"@ {
        Ok(UnofficialActivityCodeView::Registration)
    } else if s == "checkin"@ {
        Ok(UnofficialActivityCodeView::Checkin)
    } else if s == "tutorial"@ {
        Ok(UnofficialActivityCodeView::Tutorial)
    } else if s == "multi"@ {
        Ok(UnofficialActivityCodeView::MultiSubmission)
    } else if s == "breakfast"@ {
        Ok(UnofficialActivityCodeView::Breakfast)
    } else if s == "lunch"@ {
        Ok(UnofficialActivityCodeView::Lunch)
    } else if s == "dinner"@ {
        Ok(UnofficialActivityCodeView::Dinner)
    } else if s == "awards"@ {
        Ok(UnofficialActivityCodeView::Awards)
    } else if s == "misc"@ {
        Ok(UnofficialActivityCodeView::Misc(None))
    } else if "unofficial-"@.is_prefix_of(s) {
        match parse_event_activity_code::<String>(s.skip(11)) {
            Ok(c) => Ok(UnofficialActivityCodeView::Event(c)),
            Err(e) => Err(e),
        }
    } else if "misc-"@.is_prefix_of(s) {
        Ok(UnofficialActivityCodeView::Misc(Some(s.skip(5))))
    } else {
        Ok(UnofficialActivityCodeView::Other(s))
    }
}

/// The activity code that `s` spells: an unofficial one behind `other-`,
/// else an official one.
pub open spec fn parse_activity_code(s: Seq<char>) -> Result<
    ActivityCodeView,
    ActivityCodeParseError,
> {
    if "other-"@.is_prefix_of(s) {
        match parse_unofficial_activity_code(s.skip(6)) {
            Ok(c) => Ok(ActivityCodeView::Unofficial(c)),
            Err(e) => Err(e),
        }
    } else {
        match parse_event_activity_code::<OfficialEventId>(s) {
            Ok(c) => Ok(ActivityCodeView::Official(c)),
            Err(e) => Err(e),
        }
    }
}

/// A numbered field as it is written: `-`, the letter, the number.
pub open spec fn numbered(letter: char, n: nat) -> Seq<char> {
    seq!['-', letter] + decimal(n)
}

/// A round or group field as it is written, or nothing if it is absent.
pub open spec fn written_u32(letter: char, field: Option<u32>) -> Seq<char> {
    match field {
        Some(n) => numbered(letter, n as nat),
        None => Seq::empty(),
    }
}

/// An attempt field as it is written, or nothing if it is absent.
pub open spec fn written_u8(letter: char, field: Option<u8>) -> Seq<char> {
    match field {
        Some(n) => numbered(letter, n as nat),
        None => Seq::empty(),
    }
}

/// How a code is written: `event[-r{round}][-g{group}][-a{attempt}]`.
pub open spec fn format_event_activity_code(c: EventActivityCodeView) -> Seq<char> {
    c.event + written_u32('r', c.round) + written_u32('g', c.group) + written_u8('a', c.attempt)
}

/// How a round is written: `event-r{round}`.
pub open spec fn format_round_id(c: RoundIdView) -> Seq<char> {
    c.event + numbered('r', c.round as nat)
}

/// How an unofficial code is written, without the `other-` in front.
pub open spec fn format_unofficial_activity_code(c: UnofficialActivityCodeView) -> Seq<char> {
    match c {
        UnofficialActivityCodeView::Registration => "registration"@,
        UnofficialActivityCodeView::Checkin => "checkin"@,
        UnofficialActivityCodeView::Tutorial => "tutorial"@,
        UnofficialActivityCodeView::MultiSubmission => "multi"@,
        UnofficialActivityCodeView::Breakfast => "breakfast"@,
        UnofficialActivityCodeView::Lunch => "lunch"@,
        UnofficialActivityCodeView::Dinner => "dinner"@,
        UnofficialActivityCodeView::Awards => "awards"@,
        UnofficialActivityCodeView::Event(e) => "unofficial-"@ + format_event_activity_code(e),
        UnofficialActivityCodeView::Misc(Some(x)) => "misc-"@ + x,
        UnofficialActivityCodeView::Misc(None) => "misc"@,
        UnofficialActivityCodeView::Other(x) => x,
    }
}

/// How an activity code is written.
pub open spec fn format_activity_code(c: ActivityCodeView) -> Seq<char> {
    match c {
        ActivityCodeView::Official(e) => format_event_activity_code(e),
        ActivityCodeView::Unofficial(u) => "other-"@ + format_unofficial_activity_code(u),
    }
}

/// Takes the field with `letter` from the front of `rest`, if it stands there.
fn take_field_of<'a>(rest: Option<&'a str>, letter: char) -> (r: Option<(&'a str, Option<&'a str>)>)
    ensures
        match r {
            Some(f) => take_field(text_view(rest), letter) == Some((f.0@, text_view(f.1))),
            None => take_field(text_view(rest), letter) is None,
        },
{
    match rest {
        None => None,
        Some(text) => {
            let (token, after) = split_first(text, '-');
            if char_count(token) > 0 && token.get_char(0) == letter {
                Some((text_after(token, 1), after))
            } else {
                None
            }
        },
    }
}

/// Appends a numbered field to `out`.
fn write_numbered(out: &mut String, letter: char, n: u64)
    requires
        letter == 'r' || letter == 'g' || letter == 'a',
    ensures
        final(out)@ == old(out)@ + numbered(letter, n as nat),
{
    proof {
        reveal_strlit("-r");
        reveal_strlit("-g");
        reveal_strlit("-a");
    }
    let ghost before = out@;
    if letter == 'r' {
        out.append("-r");
    } else if letter == 'g' {
        out.append("-g");
    } else {
        out.append("-a");
    }
    assert(out@ =~= before + seq!['-', letter]);
    let digits = format_decimal(n);
    out.append(digits.as_str());
    assert(out@ =~= before + numbered(letter, n as nat));
}

impl<E: EventIdentifier> EventActivityCode<E> {
    /// Reads a code of the form `event[-r{round}][-g{group}][-a{attempt}]`.
    pub fn from_str(s: &str) -> (r: Result<Self, ActivityCodeParseError>)
        ensures
            result_view(r) == parse_event_activity_code::<E>(s@),
    {
        let (event_token, rest) = split_first(s, '-');
        let event = match E::from_token(event_token) {
            Some(e) => e,
            None => {
                if char_count(event_token) == 0 {
                    return Err(ActivityCodeParseError::MissingEventId);
                }
                return Err(ActivityCodeParseError::InvalidEventId);
            },
        };
        let (round, after_round) = match take_field_of(rest, 'r') {
            Some(f) => match parse_u32(f.0) {
                Ok(v) => (Some(v), f.1),
                Err(e) => {
                    return Err(ActivityCodeParseError::ParseIntError(e));
                },
            },
            None => (None, rest),
        };
        let (group, after_group) = match take_field_of(after_round, 'g') {
            Some(f) => match parse_u32(f.0) {
                Ok(v) => (Some(v), f.1),
                Err(e) => {
                    return Err(ActivityCodeParseError::ParseIntError(e));
                },
            },
            None => (None, after_round),
        };
        let attempt = match take_field_of(after_group, 'a') {
            Some(f) => match parse_u8(f.0) {
                Ok(v) => Some(v),
                Err(e) => {
                    return Err(ActivityCodeParseError::ParseIntError(e));
                },
            },
            None => {
                if after_group.is_some() {
                    return Err(ActivityCodeParseError::InvalidFormat);
                }
                None
            },
        };
        Ok(EventActivityCode { event, round, group, attempt })
    }

    /// Writes this code as `event[-r{round}][-g{group}][-a{attempt}]`.
    pub fn to_string(&self) -> (r: String)
        ensures
            r@ == format_event_activity_code(self@),
    {
        let mut out = self.event.to_token();
        let ghost start = out@;
        if let Some(id) = self.round {
            write_numbered(&mut out, 'r', id as u64);
        }
        assert(out@ =~= start + written_u32('r', self.round));
        if let Some(id) = self.group {
            write_numbered(&mut out, 'g', id as u64);
        }
        assert(out@ =~= start + written_u32('r', self.round) + written_u32('g', self.group));
        if let Some(id) = self.attempt {
            write_numbered(&mut out, 'a', id as u64);
        }
        assert(out@ =~= format_event_activity_code(self@));
        out
    }
}

impl<E: EventIdentifier> RoundId<E> {
    /// Reads a round of the form `event-r{round}`.
    pub fn from_str(s: &str) -> (r: Result<Self, ActivityCodeParseError>)
        ensures
            result_view(r) == parse_round_id::<E>(s@),
    {
        let (event_token, rest) = split_first(s, '-');
        let round = match rest {
            Some(x) => x,
            None => {
                return Err(ActivityCodeParseError::InvalidFormat);
            },
        };
        let event = match E::from_token(event_token) {
            Some(e) => e,
            None => {
                if char_count(event_token) == 0 {
                    return Err(ActivityCodeParseError::MissingEventId);
                }
                return Err(ActivityCodeParseError::InvalidEventId);
            },
        };
        if !(char_count(round) > 0 && round.get_char(0) == 'r') {
            return Err(ActivityCodeParseError::MissingRoundPrefix);
        }
        match parse_u32(text_after(round, 1)) {
            Ok(v) => Ok(RoundId { event, round: v }),
            Err(e) => Err(ActivityCodeParseError::ParseIntError(e)),
        }
    }

    /// Writes this round as `event-r{round}`.
    pub fn to_string(&self) -> (r: String)
        ensures
            r@ == format_round_id(self@),
    {
        let mut out = self.event.to_token();
        write_numbered(&mut out, 'r', self.round as u64);
        out
    }
}

impl UnofficialActivityCode {
    /// Reads an unofficial code, without the `other-` in front. This fails
    /// only on what follows `unofficial-`.
    pub fn from_str(s: &str) -> (r: Result<Self, ActivityCodeParseError>)
        ensures
            result_view(r) == parse_unofficial_activity_code(s@),
            r is Err ==> "unofficial-"@.is_prefix_of(s@),
    {
        proof {
            reveal_strlit("unofficial-");
            reveal_strlit("misc-");
        }
        let chars = chars_of(s);
        if spells(&chars, "registration") {
            Ok(UnofficialActivityCode::Registration)
        } else if spells(&chars, "checkin") {
            Ok(UnofficialActivityCode::Checkin)
        } else if spells(&chars, "tutorial") {
            Ok(UnofficialActivityCode::Tutorial)
        } else if spells(&chars, "multi") {
            Ok(UnofficialActivityCode::MultiSubmission)
        } else if spells(&chars, "breakfast") {
            Ok(UnofficialActivityCode::Breakfast)
        } else if spells(&chars, "lunch") {
            Ok(UnofficialActivityCode::Lunch)
        } else if spells(&chars, "dinner") {
            Ok(UnofficialActivityCode::Dinner)
        } else if spells(&chars, "awards") {
            Ok(UnofficialActivityCode::Awards)
        } else if spells(&chars, "misc") {
            Ok(UnofficialActivityCode::Misc(None))
        } else if starts_with(s, "unofficial-") {
            match EventActivityCode::<String>::from_str(text_after(s, 11)) {
                Ok(c) => Ok(UnofficialActivityCode::Event(c)),
                Err(e) => Err(e),
            }
        } else if starts_with(s, "misc-") {
            Ok(UnofficialActivityCode::Misc(Some(String::from_str(text_after(s, 5)))))
        } else {
            Ok(UnofficialActivityCode::Other(String::from_str(s)))
        }
    }

    /// Writes this code, without the `other-` in front.
    pub fn to_string(&self) -> (r: String)
        ensures
            r@ == format_unofficial_activity_code(self@),
    {
        match self {
            UnofficialActivityCode::Registration => String::from_str("registration"),
            UnofficialActivityCode::Checkin => String::from_str("checkin"),
            UnofficialActivityCode::Tutorial => String::from_str("tutorial"),
            UnofficialActivityCode::MultiSubmission => String::from_str("multi"),
            UnofficialActivityCode::Breakfast => String::from_str("breakfast"),
            UnofficialActivityCode::Lunch => String::from_str("lunch"),
            UnofficialActivityCode::Dinner => String::from_str("dinner"),
            UnofficialActivityCode::Awards => String::from_str("awards"),
            UnofficialActivityCode::Event(e) => {
                let code = e.to_string();
                String::from_str("unofficial-").concat(code.as_str())
            },
            UnofficialActivityCode::Misc(Some(x)) => String::from_str("misc-").concat(x.as_str()),
            UnofficialActivityCode::Misc(None) => String::from_str("misc"),
            UnofficialActivityCode::Other(x) => x.clone(),
        }
    }
}

impl ActivityCode {
    /// Reads an activity code.
    pub fn from_str(s: &str) -> (r: Result<Self, ActivityCodeParseError>)
        ensures
            result_view(r) == parse_activity_code(s@),
    {
        proof {
            reveal_strlit("other-");
        }
        if starts_with(s, "other-") {
            match UnofficialActivityCode::from_str(text_after(s, 6)) {
                Ok(c) => Ok(ActivityCode::Unofficial(c)),
                Err(e) => Err(e),
            }
        } else {
            match EventActivityCode::<OfficialEventId>::from_str(s) {
                Ok(c) => Ok(ActivityCode::Official(c)),
                Err(e) => Err(e),
            }
        }
    }

    /// Writes this activity code.
    pub fn to_string(&self) -> (r: String)
        ensures
            r@ == format_activity_code(self@),
    {
        match self {
            ActivityCode::Official(c) => c.to_string(),
            ActivityCode::Unofficial(c) => {
                let code = c.to_string();
                String::from_str("other-").concat(code.as_str())
            },
        }
    }
}

impl<E: EventIdentifier> std::str::FromStr for EventActivityCode<E> {
    type Err = ActivityCodeParseError;

    /// Reads a code of the form `event[-r{round}][-g{group}][-a{attempt}]`.
    fn from_str(s: &str) -> (r: Result<Self, Self::Err>)
        ensures
            result_view(r) == parse_event_activity_code::<E>(s@),
    {
        EventActivityCode::<E>::from_str(s)
    }
}

impl<E: EventIdentifier> std::str::FromStr for RoundId<E> {
    type Err = ActivityCodeParseError;

    /// Reads a round of the form `event-r{round}`.
    fn from_str(s: &str) -> (r: Result<Self, Self::Err>)
        ensures
            result_view(r) == parse_round_id::<E>(s@),
    {
        RoundId::<E>::from_str(s)
    }
}

impl std::str::FromStr for UnofficialActivityCode {
    type Err = ActivityCodeParseError;

    /// Reads an unofficial code, without the `other-` in front.
    fn from_str(s: &str) -> (r: Result<Self, Self::Err>)
        ensures
            result_view(r) == parse_unofficial_activity_code(s@),
    {
        UnofficialActivityCode::from_str(s)
    }
}

impl std::str::FromStr for ActivityCode {
    type Err = ActivityCodeParseError;

    /// Reads an activity code.
    fn from_str(s: &str) -> (r: Result<Self, Self::Err>)
        ensures
            result_view(r) == parse_activity_code(s@),
    {
        ActivityCode::from_str(s)
    }
}

} // verus!
