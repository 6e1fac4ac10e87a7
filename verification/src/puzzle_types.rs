//! The events of a competition and the puzzles they are held on.

use vstd::prelude::*;
use vstd::string::*;
use crate::text::{chars_of, spells};

verus! {

/// A puzzle that events are held on.
#[derive(Clone, Copy, Debug, PartialEq, Eq, Hash, Structural)]
pub enum OfficialPuzzleType {
    Cube333,
    Cube222,
    Cube444,
    Cube555,
    Cube666,
    Cube777,
    Clock,
    Megaminx,
    Pyraminx,
    Skewb,
    Square1,
    Magic,
    MasterMagic,
}

/// An event, by the code that the interchange document writes for it.
///
/// The variants stand in the order of their ordinals, so the derived order
/// is the order by ordinal.
#[derive(Clone, Copy, Debug, PartialEq, Eq, PartialOrd, Ord, Hash, Structural)]
pub enum OfficialEventId {
    Cube333,
    Cube222,
    Cube444,
    Cube555,
    Cube666,
    Cube777,
    Blind333,
    FewestMoves333,
    OneHanded333,
    Clock,
    Megaminx,
    Pyraminx,
    Skewb,
    Square1,
    Blind444,
    Blind555,
    MultiBlind333,
    Feet333,
    Magic,
    MasterMagic,
    MultiBlindOldStyle333,
}

/// The text was not the code of any event.
#[derive(Clone, Copy, Debug, PartialEq, Eq, Hash, Structural)]
pub struct InvalidEventId;

impl InvalidEventId {
    /// The message of this error.
    pub open spec fn message(self) -> Seq<char> {
        "Not a valid event"@
    }

    /// Renders the message of this error.
    pub fn to_string(&self) -> (r: String)
        ensures
            r@ == self.message(),
    {
        String::from_str("Not a valid event")
    }
}

impl OfficialEventId {
    /// The position of this event in the list of all events.
    pub open spec fn spec_ordinal(self) -> nat {
        match self {
            OfficialEventId::Cube333 => 0,
            OfficialEventId::Cube222 => 1,
            OfficialEventId::Cube444 => 2,
            OfficialEventId::Cube555 => 3,
            OfficialEventId::Cube666 => 4,
            OfficialEventId::Cube777 => 5,
            OfficialEventId::Blind333 => 6,
            OfficialEventId::FewestMoves333 => 7,
            OfficialEventId::OneHanded333 => 8,
            OfficialEventId::Clock => 9,
            OfficialEventId::Megaminx => 10,
            OfficialEventId::Pyraminx => 11,
            OfficialEventId::Skewb => 12,
            OfficialEventId::Square1 => 13,
            OfficialEventId::Blind444 => 14,
            OfficialEventId::Blind555 => 15,
            OfficialEventId::MultiBlind333 => 16,
            OfficialEventId::Feet333 => 17,
            OfficialEventId::Magic => 18,
            OfficialEventId::MasterMagic => 19,
            OfficialEventId::MultiBlindOldStyle333 => 20,
        }
    }

    /// The event at position `i` of the list of all events.
    pub open spec fn at_ordinal(i: nat) -> OfficialEventId
        recommends
            i < 21,
    {
        if i == 0 {
            OfficialEventId::Cube333
        } else if i == 1 {
            OfficialEventId::Cube222
        } else if i == 2 {
            OfficialEventId::Cube444
        } else if i == 3 {
            OfficialEventId::Cube555
        } else if i == 4 {
            OfficialEventId::Cube666
        } else if i == 5 {
            OfficialEventId::Cube777
        } else if i == 6 {
            OfficialEventId::Blind333
        } else if i == 7 {
            OfficialEventId::FewestMoves333
        } else if i == 8 {
            OfficialEventId::OneHanded333
        } else if i == 9 {
            OfficialEventId::Clock
        } else if i == 10 {
            OfficialEventId::Megaminx
        } else if i == 11 {
            OfficialEventId::Pyraminx
        } else if i == 12 {
            OfficialEventId::Skewb
        } else if i == 13 {
            OfficialEventId::Square1
        } else if i == 14 {
            OfficialEventId::Blind444
        } else if i == 15 {
            OfficialEventId::Blind555
        } else if i == 16 {
            OfficialEventId::MultiBlind333
        } else if i == 17 {
            OfficialEventId::Feet333
        } else if i == 18 {
            OfficialEventId::Magic
        } else if i == 19 {
            OfficialEventId::MasterMagic
        } else {
            OfficialEventId::MultiBlindOldStyle333
        }
    }

    /// The code of this event in the interchange document.
    pub open spec fn code(self) -> Seq<char> {
        match self {
            OfficialEventId::Cube333 => "333"@,
            OfficialEventId::Cube222 => "222"@,
            OfficialEventId::Cube444 => "444"@,
            OfficialEventId::Cube555 => "555"@,
            OfficialEventId::Cube666 => "666"@,
            OfficialEventId::Cube777 => "777"@,
            OfficialEventId::Blind333 => "333bf"@,
            OfficialEventId::FewestMoves333 => "333fm"@,
            OfficialEventId::OneHanded333 => "333oh"@,
            OfficialEventId::Clock => "clock"@,
            OfficialEventId::Megaminx => "minx"@,
            OfficialEventId::Pyraminx => "pyram"@,
            OfficialEventId::Skewb => "skewb"@,
            OfficialEventId::Square1 => "sq1"@,
            OfficialEventId::Blind444 => "444bf"@,
            OfficialEventId::Blind555 => "555bf"@,
            OfficialEventId::MultiBlind333 => "333mbf"@,
            OfficialEventId::Feet333 => "333ft"@,
            OfficialEventId::Magic => "magic"@,
            OfficialEventId::MasterMagic => "mmagic"@,
            OfficialEventId::MultiBlindOldStyle333 => "333mbo"@,
        }
    }

    /// The event that `s` is the code of, if there is one.
    pub open spec fn from_code(s: Seq<char>) -> Option<OfficialEventId> {
        if s == "333"@ {
            Some(OfficialEventId::Cube333)
        } else if s == "222"@ {
            Some(OfficialEventId::Cube222)
        } else if s == "444"@ {
            Some(OfficialEventId::Cube444)
        } else if s == "555"@ {
            Some(OfficialEventId::Cube555)
        } else if s == "666"@ {
            Some(OfficialEventId::Cube666)
        } else if s == "777"@ {
            Some(OfficialEventId::Cube777)
        } else if s == "333bf"@ {
            Some(OfficialEventId::Blind333)
        } else if s == "333fm"@ {
            Some(OfficialEventId::FewestMoves333)
        } else if s == "333oh"@ {
            Some(OfficialEventId::OneHanded333)
        } else if s == "clock"@ {
            Some(OfficialEventId::Clock)
        } else if s == "minx"@ {
            Some(OfficialEventId::Megaminx)
        } else if s == "pyram"@ {
            Some(OfficialEventId::Pyraminx)
        } else if s == "skewb"@ {
            Some(OfficialEventId::Skewb)
        } else if s == "sq1"@ {
            Some(OfficialEventId::Square1)
        } else if s == "444bf"@ {
            Some(OfficialEventId::Blind444)
        } else if s == "555bf"@ {
            Some(OfficialEventId::Blind555)
        } else if s == "333mbf"@ {
            Some(OfficialEventId::MultiBlind333)
        } else if s == "333ft"@ {
            Some(OfficialEventId::Feet333)
        } else if s == "magic"@ {
            Some(OfficialEventId::Magic)
        } else if s == "mmagic"@ {
            Some(OfficialEventId::MasterMagic)
        } else if s == "333mbo"@ {
            Some(OfficialEventId::MultiBlindOldStyle333)
        } else {
            None
        }
    }

    /// The name of this event in the regulations.
    pub open spec fn official_name(self) -> Seq<char> {
        match self {
            OfficialEventId::Cube333 => "3x3x3 Cube"@,
            OfficialEventId::Cube222 => "2x2x2 Cube"@,
            OfficialEventId::Cube444 => "4x4x4 Cube"@,
            OfficialEventId::Cube555 => "5x5x5 Cube"@,
            OfficialEventId::Cube666 => "6x6x6 Cube"@,
            OfficialEventId::Cube777 => "7x7x7 Cube"@,
            OfficialEventId::Blind333 => "3x3x3 Blindfolded"@,
            OfficialEventId::FewestMoves333 => "3x3x3 Fewest Moves"@,
            OfficialEventId::OneHanded333 => "3x3x3 One-Handed"@,
            OfficialEventId::Clock => "Clock"@,
            OfficialEventId::Megaminx => "Megaminx"@,
            OfficialEventId::Pyraminx => "Pyraminx"@,
            OfficialEventId::Skewb => "Skewb"@,
            OfficialEventId::Square1 => "Square-1"@,
            OfficialEventId::Blind444 => "4x4x4 Blindfolded"@,
            OfficialEventId::Blind555 => "5x5x5 Blindfolded"@,
            OfficialEventId::MultiBlind333 => "3x3x3 Multi-Blind"@,
            OfficialEventId::Feet333 => "3x3x3 With Feet"@,
            OfficialEventId::Magic => "Magic"@,
            OfficialEventId::MasterMagic => "Master Magic"@,
            OfficialEventId::MultiBlindOldStyle333 => "3x3x3 Multi-Blind"@,
        }
    }

    /// The puzzle that this event is held on.
    pub open spec fn puzzle_type(self) -> OfficialPuzzleType {
        match self {
            OfficialEventId::Cube333 => OfficialPuzzleType::Cube333,
            OfficialEventId::Cube222 => OfficialPuzzleType::Cube222,
            OfficialEventId::Cube444 => OfficialPuzzleType::Cube444,
            OfficialEventId::Cube555 => OfficialPuzzleType::Cube555,
            OfficialEventId::Cube666 => OfficialPuzzleType::Cube666,
            OfficialEventId::Cube777 => OfficialPuzzleType::Cube777,
            OfficialEventId::Blind333 => OfficialPuzzleType::Cube333,
            OfficialEventId::FewestMoves333 => OfficialPuzzleType::Cube333,
            OfficialEventId::OneHanded333 => OfficialPuzzleType::Cube333,
            OfficialEventId::Clock => OfficialPuzzleType::Clock,
            OfficialEventId::Megaminx => OfficialPuzzleType::Megaminx,
            OfficialEventId::Pyraminx => OfficialPuzzleType::Pyraminx,
            OfficialEventId::Skewb => OfficialPuzzleType::Skewb,
            OfficialEventId::Square1 => OfficialPuzzleType::Square1,
            OfficialEventId::Blind444 => OfficialPuzzleType::Cube444,
            OfficialEventId::Blind555 => OfficialPuzzleType::Cube555,
            OfficialEventId::MultiBlind333 => OfficialPuzzleType::Cube333,
            OfficialEventId::Feet333 => OfficialPuzzleType::Cube333,
            OfficialEventId::Magic => OfficialPuzzleType::Magic,
            OfficialEventId::MasterMagic => OfficialPuzzleType::MasterMagic,
            OfficialEventId::MultiBlindOldStyle333 => OfficialPuzzleType::Cube333,
        }
    }

    /// Whether rounds of this event can be ranked by the average of five attempts.
    pub open spec fn spec_has_average(self) -> bool {
        match self {
            OfficialEventId::Cube333 => true,
            OfficialEventId::Cube222 => true,
            OfficialEventId::Cube444 => true,
            OfficialEventId::Cube555 => true,
            OfficialEventId::Cube666 => false,
            OfficialEventId::Cube777 => false,
            OfficialEventId::Blind333 => false,
            OfficialEventId::FewestMoves333 => false,
            OfficialEventId::OneHanded333 => true,
            OfficialEventId::Clock => true,
            OfficialEventId::Megaminx => true,
            OfficialEventId::Pyraminx => true,
            OfficialEventId::Skewb => true,
            OfficialEventId::Square1 => true,
            OfficialEventId::Blind444 => false,
            OfficialEventId::Blind555 => false,
            OfficialEventId::MultiBlind333 => false,
            OfficialEventId::Feet333 => true,
            OfficialEventId::Magic => true,
            OfficialEventId::MasterMagic => true,
            OfficialEventId::MultiBlindOldStyle333 => false,
        }
    }

    /// Whether rounds of this event can be ranked by the mean of three attempts.
    pub open spec fn spec_has_mean(self) -> bool {
        match self {
            OfficialEventId::Cube333 => false,
            OfficialEventId::Cube222 => false,
            OfficialEventId::Cube444 => false,
            OfficialEventId::Cube555 => false,
            OfficialEventId::Cube666 => true,
            OfficialEventId::Cube777 => true,
            OfficialEventId::Blind333 => true,
            OfficialEventId::FewestMoves333 => true,
            OfficialEventId::OneHanded333 => false,
            OfficialEventId::Clock => false,
            OfficialEventId::Megaminx => false,
            OfficialEventId::Pyraminx => false,
            OfficialEventId::Skewb => false,
            OfficialEventId::Square1 => false,
            OfficialEventId::Blind444 => true,
            OfficialEventId::Blind555 => true,
            OfficialEventId::MultiBlind333 => false,
            OfficialEventId::Feet333 => false,
            OfficialEventId::Magic => false,
            OfficialEventId::MasterMagic => false,
            OfficialEventId::MultiBlindOldStyle333 => false,
        }
    }

    /// Whether this event is solved blindfolded.
    pub open spec fn spec_is_blind(self) -> bool {
        match self {
            OfficialEventId::Cube333 => false,
            OfficialEventId::Cube222 => false,
            OfficialEventId::Cube444 => false,
            OfficialEventId::Cube555 => false,
            OfficialEventId::Cube666 => false,
            OfficialEventId::Cube777 => false,
            OfficialEventId::Blind333 => true,
            OfficialEventId::FewestMoves333 => false,
            OfficialEventId::OneHanded333 => false,
            OfficialEventId::Clock => false,
            OfficialEventId::Megaminx => false,
            OfficialEventId::Pyraminx => false,
            OfficialEventId::Skewb => false,
            OfficialEventId::Square1 => false,
            OfficialEventId::Blind444 => true,
            OfficialEventId::Blind555 => true,
            OfficialEventId::MultiBlind333 => true,
            OfficialEventId::Feet333 => false,
            OfficialEventId::Magic => false,
            OfficialEventId::MasterMagic => false,
            OfficialEventId::MultiBlindOldStyle333 => true,
        }
    }

    /// Reveals what each event code spells.
    pub proof fn reveal_codes()
        ensures
            "333"@ == seq!['3', '3', '3'],
            "222"@ == seq!['2', '2', '2'],
            "444"@ == seq!['4', '4', '4'],
            "555"@ == seq!['5', '5', '5'],
            "666"@ == seq!['6', '6', '6'],
            "777"@ == seq!['7', '7', '7'],
            "333bf"@ == seq!['3', '3', '3', 'b', 'f'],
            "333fm"@ == seq!['3', '3', '3', 'f', 'm'],
            "333oh"@ == seq!['3', '3', '3', 'o', 'h'],
            "clock"@ == seq!['c', 'l', 'o', 'c', 'k'],
            "minx"@ == seq!['m', 'i', 'n', 'x'],
            "pyram"@ == seq!['p', 'y', 'r', 'a', 'm'],
            "skewb"@ == seq!['s', 'k', 'e', 'w', 'b'],
            "sq1"@ == seq!['s', 'q', '1'],
            "444bf"@ == seq!['4', '4', '4', 'b', 'f'],
            "555bf"@ == seq!['5', '5', '5', 'b', 'f'],
            "333mbf"@ == seq!['3', '3', '3', 'm', 'b', 'f'],
            "333ft"@ == seq!['3', '3', '3', 'f', 't'],
            "magic"@ == seq!['m', 'a', 'g', 'i', 'c'],
            "mmagic"@ == seq!['m', 'm', 'a', 'g', 'i', 'c'],
            "333mbo"@ == seq!['3', '3', '3', 'm', 'b', 'o'],
    {
        reveal_strlit("333");
        reveal_strlit("222");
        reveal_strlit("444");
        reveal_strlit("555");
        reveal_strlit("666");
        reveal_strlit("777");
        reveal_strlit("333bf");
        reveal_strlit("333fm");
        reveal_strlit("333oh");
        reveal_strlit("clock");
        reveal_strlit("minx");
        reveal_strlit("pyram");
        reveal_strlit("skewb");
        reveal_strlit("sq1");
        reveal_strlit("444bf");
        reveal_strlit("555bf");
        reveal_strlit("333mbf");
        reveal_strlit("333ft");
        reveal_strlit("magic");
        reveal_strlit("mmagic");
        reveal_strlit("333mbo");
        assert("333"@ =~= seq!['3', '3', '3']);
        assert("222"@ =~= seq!['2', '2', '2']);
        assert("444"@ =~= seq!['4', '4', '4']);
        assert("555"@ =~= seq!['5', '5', '5']);
        assert("666"@ =~= seq!['6', '6', '6']);
        assert("777"@ =~= seq!['7', '7', '7']);
        assert("333bf"@ =~= seq!['3', '3', '3', 'b', 'f']);
        assert("333fm"@ =~= seq!['3', '3', '3', 'f', 'm']);
        assert("333oh"@ =~= seq!['3', '3', '3', 'o', 'h']);
        assert("clock"@ =~= seq!['c', 'l', 'o', 'c', 'k']);
        assert("minx"@ =~= seq!['m', 'i', 'n', 'x']);
        assert("pyram"@ =~= seq!['p', 'y', 'r', 'a', 'm']);
        assert("skewb"@ =~= seq!['s', 'k', 'e', 'w', 'b']);
        assert("sq1"@ =~= seq!['s', 'q', '1']);
        assert("444bf"@ =~= seq!['4', '4', '4', 'b', 'f']);
        assert("555bf"@ =~= seq!['5', '5', '5', 'b', 'f']);
        assert("333mbf"@ =~= seq!['3', '3', '3', 'm', 'b', 'f']);
        assert("333ft"@ =~= seq!['3', '3', '3', 'f', 't']);
        assert("magic"@ =~= seq!['m', 'a', 'g', 'i', 'c']);
        assert("mmagic"@ =~= seq!['m', 'm', 'a', 'g', 'i', 'c']);
        assert("333mbo"@ =~= seq!['3', '3', '3', 'm', 'b', 'o']);
    }

    /// Every event is found again by its code, and no code holds a `-`.
    pub proof fn lemma_code_round_trip(self)
        ensures
            OfficialEventId::from_code(self.code()) == Some(self),
            !self.code().contains('-'),
            self.code().len() > 0,
    {
        OfficialEventId::reveal_codes();
        let s = self.code();
        if s.contains('-') {
            let i = choose|i: int| 0 <= i < s.len() && s[i] == '-';
            assert(s[i] == '-');
        }
    }

    /// A text is the code of the event that it is read as.
    pub proof fn lemma_from_code(s: Seq<char>)
        ensures
            OfficialEventId::from_code(s) matches Some(e) ==> e.code() == s,
    {
    }

    /// Two events with the same code are the same event.
    pub proof fn lemma_code_injective(self, other: OfficialEventId)
        ensures
            (self.code() == other.code()) == (self == other),
    {
        self.lemma_code_round_trip();
        other.lemma_code_round_trip();
    }

    /// The ordinals number the events from 0 to 20.
    pub proof fn lemma_ordinal(self)
        ensures
            self.spec_ordinal() < 21,
            OfficialEventId::at_ordinal(self.spec_ordinal()) == self,
    {
    }

    /// The position of this event in the list of all events.
    pub fn ordinal(&self) -> (r: usize)
        ensures
            r == self.spec_ordinal(),
            r < 21,
    {
        match self {
            OfficialEventId::Cube333 => 0,
            OfficialEventId::Cube222 => 1,
            OfficialEventId::Cube444 => 2,
            OfficialEventId::Cube555 => 3,
            OfficialEventId::Cube666 => 4,
            OfficialEventId::Cube777 => 5,
            OfficialEventId::Blind333 => 6,
            OfficialEventId::FewestMoves333 => 7,
            OfficialEventId::OneHanded333 => 8,
            OfficialEventId::Clock => 9,
            OfficialEventId::Megaminx => 10,
            OfficialEventId::Pyraminx => 11,
            OfficialEventId::Skewb => 12,
            OfficialEventId::Square1 => 13,
            OfficialEventId::Blind444 => 14,
            OfficialEventId::Blind555 => 15,
            OfficialEventId::MultiBlind333 => 16,
            OfficialEventId::Feet333 => 17,
            OfficialEventId::Magic => 18,
            OfficialEventId::MasterMagic => 19,
            OfficialEventId::MultiBlindOldStyle333 => 20,
        }
    }

    /// Whether this event is held today: the first seventeen are, the last four were retired.
    pub fn is_official(&self) -> (r: bool)
        ensures
            r == (self.spec_ordinal() < 17),
    {
        match self {
            OfficialEventId::Feet333 => false,
            OfficialEventId::Magic => false,
            OfficialEventId::MasterMagic => false,
            OfficialEventId::MultiBlindOldStyle333 => false,
            _ => true,
        }
    }

    /// All events, each at the index of its ordinal.
    pub fn all() -> (r: [Self; 21])
        ensures
            forall|i: int| 0 <= i < 21 ==> #[trigger] r[i] == OfficialEventId::at_ordinal(i as nat),
    {
        [
            Self::Cube333,
            Self::Cube222,
            Self::Cube444,
            Self::Cube555,
            Self::Cube666,
            Self::Cube777,
            Self::Blind333,
            Self::FewestMoves333,
            Self::OneHanded333,
            Self::Clock,
            Self::Megaminx,
            Self::Pyraminx,
            Self::Skewb,
            Self::Square1,
            Self::Blind444,
            Self::Blind555,
            Self::MultiBlind333,
            Self::Feet333,
            Self::Magic,
            Self::MasterMagic,
            Self::MultiBlindOldStyle333,
        ]
    }

    /// The events that are held today, each at the index of its ordinal.
    pub fn all_official() -> (r: [Self; 17])
        ensures
            forall|i: int| 0 <= i < 17 ==> #[trigger] r[i] == OfficialEventId::at_ordinal(i as nat),
    {
        [
            Self::Cube333,
            Self::Cube222,
            Self::Cube444,
            Self::Cube555,
            Self::Cube666,
            Self::Cube777,
            Self::Blind333,
            Self::FewestMoves333,
            Self::OneHanded333,
            Self::Clock,
            Self::Megaminx,
            Self::Pyraminx,
            Self::Skewb,
            Self::Square1,
            Self::Blind444,
            Self::Blind555,
            Self::MultiBlind333,
        ]
    }

    /// The name of this event in the regulations.
    pub fn get_official_name(&self) -> (r: &'static str)
        ensures
            r@ == self.official_name(),
    {
        match self {
            OfficialEventId::Cube333 => "3x3x3 Cube",
            OfficialEventId::Cube222 => "2x2x2 Cube",
            OfficialEventId::Cube444 => "4x4x4 Cube",
            OfficialEventId::Cube555 => "5x5x5 Cube",
            OfficialEventId::Cube666 => "6x6x6 Cube",
            OfficialEventId::Cube777 => "7x7x7 Cube",
            OfficialEventId::Blind333 => "3x3x3 Blindfolded",
            OfficialEventId::FewestMoves333 => "3x3x3 Fewest Moves",
            OfficialEventId::OneHanded333 => "3x3x3 One-Handed",
            OfficialEventId::Clock => "Clock",
            OfficialEventId::Megaminx => "Megaminx",
            OfficialEventId::Pyraminx => "Pyraminx",
            OfficialEventId::Skewb => "Skewb",
            OfficialEventId::Square1 => "Square-1",
            OfficialEventId::Blind444 => "4x4x4 Blindfolded",
            OfficialEventId::Blind555 => "5x5x5 Blindfolded",
            OfficialEventId::MultiBlind333 => "3x3x3 Multi-Blind",
            OfficialEventId::Feet333 => "3x3x3 With Feet",
            OfficialEventId::Magic => "Magic",
            OfficialEventId::MasterMagic => "Master Magic",
            OfficialEventId::MultiBlindOldStyle333 => "3x3x3 Multi-Blind",
        }
    }

    /// Whether rounds of this event have an average or a mean at all.
    pub fn has_average_or_mean(&self) -> (r: bool)
        ensures
            r == (self.spec_has_average() || self.spec_has_mean()),
            r == (*self != OfficialEventId::MultiBlind333 && *self
                != OfficialEventId::MultiBlindOldStyle333),
    {
        match self {
            OfficialEventId::MultiBlind333 => false,
            OfficialEventId::MultiBlindOldStyle333 => false,
            _ => true,
        }
    }

    /// Whether rounds of this event can be ranked by the average of five attempts.
    pub fn has_average(&self) -> (r: bool)
        ensures
            r == self.spec_has_average(),
            r ==> !self.spec_has_mean(),
    {
        match self {
            OfficialEventId::Cube666 | OfficialEventId::Cube777 => false,
            OfficialEventId::Blind333 | OfficialEventId::Blind444 | OfficialEventId::Blind555 => false,
            OfficialEventId::FewestMoves333 => false,
            OfficialEventId::MultiBlind333 | OfficialEventId::MultiBlindOldStyle333 => false,
            _ => true,
        }
    }

    /// Whether rounds of this event can be ranked by the mean of three attempts.
    pub fn has_mean(&self) -> (r: bool)
        ensures
            r == self.spec_has_mean(),
            r ==> !self.spec_has_average(),
    {
        match self {
            OfficialEventId::Cube666 | OfficialEventId::Cube777 => true,
            OfficialEventId::Blind333 | OfficialEventId::Blind444 | OfficialEventId::Blind555 => true,
            OfficialEventId::FewestMoves333 => true,
            _ => false,
        }
    }

    /// Whether this event is solved blindfolded.
    pub fn is_blind(&self) -> (r: bool)
        ensures
            r == self.spec_is_blind(),
    {
        match self {
            Self::Blind333
            | Self::Blind444
            | Self::Blind555
            | Self::MultiBlind333
            | Self::MultiBlindOldStyle333 => true,
            _ => false,
        }
    }

    /// The puzzle that this event is held on.
    pub fn get_puzzle_type(&self) -> (r: OfficialPuzzleType)
        ensures
            r == self.puzzle_type(),
    {
        match self {
            Self::Cube333
            | Self::OneHanded333
            | Self::Blind333
            | Self::Feet333
            | Self::FewestMoves333
            | Self::MultiBlind333
            | Self::MultiBlindOldStyle333 => OfficialPuzzleType::Cube333,
            Self::Cube222 => OfficialPuzzleType::Cube222,
            Self::Cube444 | Self::Blind444 => OfficialPuzzleType::Cube444,
            Self::Cube555 | Self::Blind555 => OfficialPuzzleType::Cube555,
            Self::Cube666 => OfficialPuzzleType::Cube666,
            Self::Cube777 => OfficialPuzzleType::Cube777,
            Self::Clock => OfficialPuzzleType::Clock,
            Self::Megaminx => OfficialPuzzleType::Megaminx,
            Self::Pyraminx => OfficialPuzzleType::Pyraminx,
            Self::Skewb => OfficialPuzzleType::Skewb,
            Self::Square1 => OfficialPuzzleType::Square1,
            Self::Magic => OfficialPuzzleType::Magic,
            Self::MasterMagic => OfficialPuzzleType::MasterMagic,
        }
    }

    /// Reads the code of an event.
    pub fn from_str(s: &str) -> (r: Result<Self, InvalidEventId>)
        ensures
            match r {
                Ok(e) => OfficialEventId::from_code(s@) == Some(e),
                Err(_) => OfficialEventId::from_code(s@) is None,
            },
    {
        let chars = chars_of(s);
        if spells(&chars, "333") {
            Ok(OfficialEventId::Cube333)
        } else if spells(&chars, "222") {
            Ok(OfficialEventId::Cube222)
        } else if spells(&chars, "444") {
            Ok(OfficialEventId::Cube444)
        } else if spells(&chars, "555") {
            Ok(OfficialEventId::Cube555)
        } else if spells(&chars, "666") {
            Ok(OfficialEventId::Cube666)
        } else if spells(&chars, "777") {
            Ok(OfficialEventId::Cube777)
        } else if spells(&chars, "333bf") {
            Ok(OfficialEventId::Blind333)
        } else if spells(&chars, "333fm") {
            Ok(OfficialEventId::FewestMoves333)
        } else if spells(&chars, "333oh") {
            Ok(OfficialEventId::OneHanded333)
        } else if spells(&chars, "clock") {
            Ok(OfficialEventId::Clock)
        } else if spells(&chars, "minx") {
            Ok(OfficialEventId::Megaminx)
        } else if spells(&chars, "pyram") {
            Ok(OfficialEventId::Pyraminx)
        } else if spells(&chars, "skewb") {
            Ok(OfficialEventId::Skewb)
        } else if spells(&chars, "sq1") {
            Ok(OfficialEventId::Square1)
        } else if spells(&chars, "444bf") {
            Ok(OfficialEventId::Blind444)
        } else if spells(&chars, "555bf") {
            Ok(OfficialEventId::Blind555)
        } else if spells(&chars, "333mbf") {
            Ok(OfficialEventId::MultiBlind333)
        } else if spells(&chars, "333ft") {
            Ok(OfficialEventId::Feet333)
        } else if spells(&chars, "magic") {
            Ok(OfficialEventId::Magic)
        } else if spells(&chars, "mmagic") {
            Ok(OfficialEventId::MasterMagic)
        } else if spells(&chars, "333mbo") {
            Ok(OfficialEventId::MultiBlindOldStyle333)
        } else {
            Err(InvalidEventId)
        }
    }

    /// Writes the code of this event.
    pub fn to_string(&self) -> (r: String)
        ensures
            r@ == self.code(),
    {
        String::from_str(
            match self {
                OfficialEventId::Cube333 => "333",
                OfficialEventId::Cube222 => "222",
                OfficialEventId::Cube444 => "444",
                OfficialEventId::Cube555 => "555",
                OfficialEventId::Cube666 => "666",
                OfficialEventId::Cube777 => "777",
                OfficialEventId::Blind333 => "333bf",
                OfficialEventId::FewestMoves333 => "333fm",
                OfficialEventId::OneHanded333 => "333oh",
                OfficialEventId::Clock => "clock",
                OfficialEventId::Megaminx => "minx",
                OfficialEventId::Pyraminx => "pyram",
                OfficialEventId::Skewb => "skewb",
                OfficialEventId::Square1 => "sq1",
                OfficialEventId::Blind444 => "444bf",
                OfficialEventId::Blind555 => "555bf",
                OfficialEventId::MultiBlind333 => "333mbf",
                OfficialEventId::Feet333 => "333ft",
                OfficialEventId::Magic => "magic",
                OfficialEventId::MasterMagic => "mmagic",
                OfficialEventId::MultiBlindOldStyle333 => "333mbo",
            },
        )
    }
}

impl std::str::FromStr for OfficialEventId {
    type Err = InvalidEventId;

    /// Reads the code of an event.
    fn from_str(s: &str) -> (r: Result<Self, Self::Err>)
        ensures
            match r {
                Ok(e) => OfficialEventId::from_code(s@) == Some(e),
                Err(_) => OfficialEventId::from_code(s@) is None,
            },
    {
        OfficialEventId::from_str(s)
    }
}

} // verus!
