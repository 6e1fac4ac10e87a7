//! The identifier of a person: ten characters, of which the first four are
//! the year of the first competition, the next four come from the name, and
//! the last two tell apart the persons that share the first eight.

use vstd::prelude::*;
use vstd::string::*;
use std::cmp::Ordering;
use crate::text::{
    char_count, chars_of, decimal, decimal_zero_led, format_decimal, format_zero_led,
    lemma_decimal_len, lemma_parse_decimal, lemma_parse_decimal_zero_led, parse_u16,
    parse_u16_spec, parse_u8, parse_u8_spec, result_view, ParseIntError,
};

verus! {

/// The identifier of a person. The fields stand in the order that
/// identifiers are sorted by, so the derived order is that order.
#[derive(Clone, Debug, PartialEq, Eq, Ord, Hash)]
pub struct WCAId {
    pub year: u16,
    pub name: String,
    pub discriminant: u8,
}

/// A `WCAId`, with the name as a character sequence.
pub struct WCAIdView {
    pub year: u16,
    pub name: Seq<char>,
    pub discriminant: u8,
}

impl View for WCAId {
    type V = WCAIdView;

    open spec fn view(&self) -> WCAIdView {
        WCAIdView { year: self.year, name: self.name@, discriminant: self.discriminant }
    }
}

/// Why a text is not an identifier.
#[derive(Clone, Copy, Debug, PartialEq, Eq, Hash, Structural)]
pub enum WCAIdParseError {
    /// The year or the last two characters are not a decimal number.
    ParseIntError(ParseIntError),
    /// The text has this many characters, and not ten.
    LengthError(usize),
}

impl WCAIdParseError {
    /// The message of this error.
    pub open spec fn message(self) -> Seq<char> {
        match self {
            WCAIdParseError::ParseIntError(e) => e.message(),
            WCAIdParseError::LengthError(l) => "Invalid WCA ID length "@ + decimal(l as nat),
        }
    }

    /// Renders the message of this error.
    pub fn to_string(&self) -> (r: String)
        ensures
            r@ == self.message(),
    {
        match self {
            WCAIdParseError::ParseIntError(e) => e.to_string(),
            WCAIdParseError::LengthError(l) => {
                let digits = format_decimal(*l as u64);
                String::from_str("Invalid WCA ID length ").concat(digits.as_str())
            },
        }
    }
}

/// The identifier that `s` spells. The four characters of the name are
/// taken as they are.
pub open spec fn parse_wca_id(s: Seq<char>) -> Result<WCAIdView, WCAIdParseError> {
    if s.len() != 10 {
        Err(WCAIdParseError::LengthError(s.len() as usize))
    } else {
        match parse_u16_spec(s.subrange(0, 4)) {
            Err(e) => Err(WCAIdParseError::ParseIntError(e)),
            Ok(year) => match parse_u8_spec(s.subrange(8, 10)) {
                Err(e) => Err(WCAIdParseError::ParseIntError(e)),
                Ok(discriminant) => Ok(WCAIdView { year, name: s.subrange(4, 8), discriminant }),
            },
        }
    }
}

/// How an identifier is written: the year, the name, and the last number
/// with a `0` in front if it has a single digit.
pub open spec fn format_wca_id(id: WCAIdView) -> Seq<char> {
    decimal(id.year as nat) + id.name + decimal_zero_led(id.discriminant as nat)
}

impl WCAIdView {
    /// Whether this identifier is written in ten characters of which each
    /// part has its own: a year of four digits, a name of four characters
    /// and a last number of at most two digits.
    pub open spec fn is_canonical(self) -> bool {
        &&& 1000 <= self.year <= 9999
        &&& self.name.len() == 4
        &&& self.discriminant <= 99
    }
}

/// How many characters two texts have in common from index `i` on, counted
/// from the start of the texts.
pub open spec fn common_prefix_len(a: Seq<char>, b: Seq<char>, i: int) -> int
    decreases a.len() - i,
{
    if i >= a.len() || i >= b.len() || a[i] != b[i] {
        i
    } else {
        common_prefix_len(a, b, i + 1)
    }
}

/// The order of two texts, character by character: the first character
/// that differs decides, and a text is less than each text that it is a
/// proper prefix of.
pub open spec fn text_order(a: Seq<char>, b: Seq<char>) -> Ordering {
    let k = common_prefix_len(a, b, 0);
    if k >= a.len() || k >= b.len() {
        if a.len() < b.len() {
            Ordering::Less
        } else if a.len() == b.len() {
            Ordering::Equal
        } else {
            Ordering::Greater
        }
    } else if a[k] < b[k] {
        Ordering::Less
    } else {
        Ordering::Greater
    }
}

/// The order of two identifiers: by year, then by name, then by the last number.
pub open spec fn wca_id_order(a: WCAIdView, b: WCAIdView) -> Ordering {
    if a.year < b.year {
        Ordering::Less
    } else if a.year > b.year {
        Ordering::Greater
    } else if text_order(a.name, b.name) != Ordering::Equal {
        text_order(a.name, b.name)
    } else if a.discriminant < b.discriminant {
        Ordering::Less
    } else if a.discriminant > b.discriminant {
        Ordering::Greater
    } else {
        Ordering::Equal
    }
}

/// The common prefix ends where a text ends or the two differ.
pub proof fn lemma_common_prefix_len(a: Seq<char>, b: Seq<char>, i: int)
    requires
        0 <= i <= a.len(),
        i <= b.len(),
    ensures
        i <= common_prefix_len(a, b, i) <= a.len(),
        common_prefix_len(a, b, i) <= b.len(),
        forall|j: int| i <= j < common_prefix_len(a, b, i) ==> a[j] == b[j],
        common_prefix_len(a, b, i) < a.len() && common_prefix_len(a, b, i) < b.len() ==> a[common_prefix_len(
            a,
            b,
            i,
        )] != b[common_prefix_len(a, b, i)],
    decreases a.len() - i,
{
    if !(i >= a.len() || i >= b.len() || a[i] != b[i]) {
        lemma_common_prefix_len(a, b, i + 1);
    }
}

/// Two texts are equal in the order exactly if they are the same text.
pub proof fn lemma_text_order_equal(a: Seq<char>, b: Seq<char>)
    ensures
        text_order(a, b) == Ordering::Equal <==> a == b,
{
    lemma_common_prefix_len(a, b, 0);
    if text_order(a, b) == Ordering::Equal {
        assert(a =~= b);
    }
}

/// Two identifiers are equal in the order exactly if they are the same identifier.
pub proof fn lemma_wca_id_order_equal(a: WCAIdView, b: WCAIdView)
    ensures
        wca_id_order(a, b) == Ordering::Equal <==> a == b,
{
    lemma_text_order_equal(a.name, b.name);
}

/// The number of characters that two texts have in common at their start.
fn common_prefix(x: &Vec<char>, y: &Vec<char>) -> (k: usize)
    ensures
        k == common_prefix_len(x@, y@, 0),
        k <= x.len(),
        k <= y.len(),
{
    let mut i: usize = 0;
    while i < x.len() && i < y.len() && x[i] == y[i]
        invariant
            i <= x.len(),
            i <= y.len(),
            common_prefix_len(x@, y@, 0) == common_prefix_len(x@, y@, i as int),
        decreases x.len() - i,
    {
        i += 1;
    }
    i
}

/// Compares two texts character by character.
pub fn compare_text(a: &str, b: &str) -> (r: Ordering)
    ensures
        r == text_order(a@, b@),
{
    let x = chars_of(a);
    let y = chars_of(b);
    let k = common_prefix(&x, &y);
    if k >= x.len() || k >= y.len() {
        if x.len() < y.len() {
            Ordering::Less
        } else if x.len() == y.len() {
            Ordering::Equal
        } else {
            Ordering::Greater
        }
    } else if x[k] < y[k] {
        Ordering::Less
    } else {
        Ordering::Greater
    }
}

impl WCAId {
    /// Reads an identifier of ten characters.
    pub fn from_str(s: &str) -> (r: Result<Self, WCAIdParseError>)
        ensures
            result_view(r) == parse_wca_id(s@),
    {
        let n = char_count(s);
        if n != 10 {
            return Err(WCAIdParseError::LengthError(n));
        }
        let year = match parse_u16(s.substring_char(0, 4)) {
            Ok(v) => v,
            Err(e) => {
                return Err(WCAIdParseError::ParseIntError(e));
            },
        };
        let name = s.substring_char(4, 8);
        let discriminant = match parse_u8(s.substring_char(8, 10)) {
            Ok(v) => v,
            Err(e) => {
                return Err(WCAIdParseError::ParseIntError(e));
            },
        };
        Ok(WCAId { year, name: String::from_str(name), discriminant })
    }

    /// Writes this identifier.
    pub fn to_string(&self) -> (r: String)
        ensures
            r@ == format_wca_id(self@),
    {
        let out = format_decimal(self.year as u64);
        let out = out.concat(self.name.as_str());
        let last = format_zero_led(self.discriminant as u64);
        out.concat(last.as_str())
    }

    /// Compares two identifiers: by year, then by name, then by the last number.
    pub fn compare(&self, other: &Self) -> (r: Ordering)
        ensures
            r == wca_id_order(self@, other@),
    {
        if self.year < other.year {
            return Ordering::Less;
        } else if self.year > other.year {
            return Ordering::Greater;
        }
        match compare_text(self.name.as_str(), other.name.as_str()) {
            Ordering::Less => Ordering::Less,
            Ordering::Greater => Ordering::Greater,
            Ordering::Equal => if self.discriminant < other.discriminant {
                Ordering::Less
            } else if self.discriminant > other.discriminant {
                Ordering::Greater
            } else {
                Ordering::Equal
            },
        }
    }
}

impl std::str::FromStr for WCAId {
    type Err = WCAIdParseError;

    /// Reads an identifier of ten characters.
    fn from_str(s: &str) -> (r: Result<Self, Self::Err>)
        ensures
            result_view(r) == parse_wca_id(s@),
    {
        WCAId::from_str(s)
    }
}

impl vstd::std_specs::cmp::PartialOrdSpecImpl for WCAId {
    open spec fn obeys_partial_cmp_spec() -> bool {
        true
    }

    open spec fn partial_cmp_spec(&self, other: &Self) -> Option<Ordering> {
        Some(wca_id_order(self@, other@))
    }
}

impl PartialOrd for WCAId {
    /// Compares two identifiers: by year, then by name, then by the last number.
    fn partial_cmp(&self, other: &Self) -> (r: Option<Ordering>) {
        Some(self.compare(other))
    }
}

/// A canonical identifier is read back as itself once it is written.
pub proof fn lemma_wca_id_round_trip(id: WCAIdView)
    requires
        id.is_canonical(),
    ensures
        format_wca_id(id).len() == 10,
        parse_wca_id(format_wca_id(id)) == Ok::<WCAIdView, WCAIdParseError>(id),
{
    let year = decimal(id.year as nat);
    let last = decimal_zero_led(id.discriminant as nat);
    let text = format_wca_id(id);
    lemma_decimal_len(id.year as nat);
    lemma_decimal_len(id.discriminant as nat);
    assert(text.subrange(0, 4) =~= year);
    assert(text.subrange(4, 8) =~= id.name);
    assert(text.subrange(8, 10) =~= last);
    lemma_parse_decimal(id.year as nat, 0xffff);
    lemma_parse_decimal_zero_led(id.discriminant as nat, 0xff);
}

/// Only a text of ten characters is read as an identifier, and the
/// characters of the name are those from the fifth to the eighth.
pub proof fn lemma_wca_id_length(s: Seq<char>)
    ensures
        parse_wca_id(s) is Ok ==> s.len() == 10,
        parse_wca_id(s) matches Ok(id) ==> id.name == s.subrange(4, 8),
        s.len() != 10 ==> parse_wca_id(s) == Err::<WCAIdView, WCAIdParseError>(
            WCAIdParseError::LengthError(s.len() as usize),
        ),
{
}

} // verus!
