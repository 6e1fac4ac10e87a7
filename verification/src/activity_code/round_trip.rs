//! What is written is read back: the codes that their own text stands for.

use vstd::prelude::*;
use crate::activity_code::grammar::{
    format_activity_code, format_event_activity_code, format_round_id,
    format_unofficial_activity_code, numbered, parse_activity_code, parse_event_activity_code,
    parse_fields, parse_round_id, parse_unofficial_activity_code, skip_field, take_field,
    written_u32, written_u8, ActivityCodeParseError,
};
use crate::activity_code::{
    ActivityCode, ActivityCodeView, EventActivityCode, EventIdentifier, RoundId,
    UnofficialActivityCode, UnofficialActivityCodeView,
};
use crate::puzzle_types::OfficialEventId;
use crate::text::{
    decimal, is_tail, lemma_decimal_plain, lemma_index_from, lemma_parse_decimal,
    lemma_token_front, tail_rest,
};

verus! {

/// Whether an event code can stand in front of a written code: it holds no `-`.
pub open spec fn is_plain_event(event: Seq<char>) -> bool {
    !event.contains('-')
}

/// Whether the reader of unofficial codes takes `s` for something else than a
/// free text: a keyword, or a text behind `unofficial-` or `misc-`.
pub open spec fn is_claimed(s: Seq<char>) -> bool {
    ||| s == "registration"@
    ||| s == "checkin"@
    ||| s == "tutorial"@
    ||| s == "multi"@
    ||| s == "breakfast"@
    ||| s == "lunch"@
    ||| s == "dinner"@
    ||| s == "awards"@
    ||| s == "misc"@
    ||| "unofficial-"@.is_prefix_of(s)
    ||| "misc-"@.is_prefix_of(s)
}

impl UnofficialActivityCodeView {
    /// Whether this code is read back as itself once written: its event, if
    /// it has one, is plain, and its free text, if it is one, is not claimed.
    pub open spec fn is_canonical(self) -> bool {
        match self {
            UnofficialActivityCodeView::Event(e) => is_plain_event(e.event),
            UnofficialActivityCodeView::Other(x) => !is_claimed(x),
            _ => true,
        }
    }
}

impl ActivityCodeView {
    /// Whether this code is read back as itself once written.
    pub open spec fn is_canonical(self) -> bool {
        match self {
            ActivityCodeView::Official(_) => true,
            ActivityCodeView::Unofficial(u) => u.is_canonical(),
        }
    }
}

/// What the keywords and prefixes of the grammar spell.
proof fn reveal_keywords()
    ensures
        "registration"@.len() == 12 && "registration"@[0] == 'r',
        "checkin"@.len() == 7 && "checkin"@[0] == 'c',
        "tutorial"@.len() == 8 && "tutorial"@[0] == 't',
        "multi"@ == seq!['m', 'u', 'l', 't', 'i'],
        "breakfast"@.len() == 9 && "breakfast"@[0] == 'b',
        "lunch"@.len() == 5 && "lunch"@[0] == 'l',
        "dinner"@.len() == 6 && "dinner"@[0] == 'd',
        "awards"@.len() == 6 && "awards"@[0] == 'a',
        "misc"@ == seq!['m', 'i', 's', 'c'],
        "misc-"@ == seq!['m', 'i', 's', 'c', '-'],
        "unofficial-"@.len() == 11 && "unofficial-"@[0] == 'u',
        "other-"@ == seq!['o', 't', 'h', 'e', 'r', '-'],
{
    reveal_strlit("registration");
    reveal_strlit("checkin");
    reveal_strlit("tutorial");
    reveal_strlit("multi");
    reveal_strlit("breakfast");
    reveal_strlit("lunch");
    reveal_strlit("dinner");
    reveal_strlit("awards");
    reveal_strlit("misc");
    reveal_strlit("misc-");
    reveal_strlit("unofficial-");
    reveal_strlit("other-");
    assert("multi"@ =~= seq!['m', 'u', 'l', 't', 'i']);
    assert("misc"@ =~= seq!['m', 'i', 's', 'c']);
    assert("misc-"@ =~= seq!['m', 'i', 's', 'c', '-']);
    assert("other-"@ =~= seq!['o', 't', 'h', 'e', 'r', '-']);
}

/// A numbered field in front of a tail is taken as that field, and as no other.
proof fn lemma_field_front(letter: char, n: nat, tail: Seq<char>)
    requires
        is_tail(tail, '-'),
        letter != '-',
    ensures
        is_tail(numbered(letter, n) + tail, '-'),
        take_field(tail_rest(numbered(letter, n) + tail), letter) == Some(
            (decimal(n), tail_rest(tail)),
        ),
        forall|other: char|
            other != letter ==> take_field(tail_rest(numbered(letter, n) + tail), other) is None,
{
    let text = numbered(letter, n) + tail;
    let token = seq![letter] + decimal(n);
    lemma_decimal_plain(n);
    if token.contains('-') {
        let i = choose|i: int| 0 <= i < token.len() && token[i] == '-';
        assert(i > 0);
        assert(decimal(n).contains(token[i]));
    }
    assert(text.skip(1) =~= token + tail);
    lemma_token_front(token, '-', tail);
    assert(token.skip(1) =~= decimal(n));
}

/// The fields of a code, written one after the other, are read back as they were.
proof fn lemma_fields_round_trip(round: Option<u32>, group: Option<u32>, attempt: Option<u8>)
    ensures
        is_tail(written_u32('r', round) + written_u32('g', group) + written_u8('a', attempt), '-'),
        parse_fields(
            tail_rest(written_u32('r', round) + written_u32('g', group) + written_u8('a', attempt)),
        ) == Ok::<_, ActivityCodeParseError>((round, group, attempt)),
{
    let a_text = written_u8('a', attempt);
    let g_text = written_u32('g', group) + a_text;
    let text = written_u32('r', round) + g_text;
    assert(text =~= written_u32('r', round) + written_u32('g', group) + written_u8('a', attempt));
    let empty = Seq::<char>::empty();
    // The attempt, which nothing follows.
    match attempt {
        Some(n) => {
            lemma_field_front('a', n as nat, empty);
            assert(numbered('a', n as nat) + empty =~= a_text);
            lemma_parse_decimal(n as nat, 0xff);
        },
        None => {},
    }
    assert(is_tail(a_text, '-'));
    assert(take_field(tail_rest(a_text), 'r') is None);
    assert(take_field(tail_rest(a_text), 'g') is None);
    // The group, which the attempt follows.
    match group {
        Some(n) => {
            lemma_field_front('g', n as nat, a_text);
            lemma_parse_decimal(n as nat, 0xffff_ffff);
        },
        None => {
            assert(g_text =~= a_text);
        },
    }
    assert(is_tail(g_text, '-'));
    assert(take_field(tail_rest(g_text), 'r') is None);
    assert(skip_field(tail_rest(g_text), 'g') == tail_rest(a_text));
    // The round, which the group follows.
    match round {
        Some(n) => {
            lemma_field_front('r', n as nat, g_text);
            lemma_parse_decimal(n as nat, 0xffff_ffff);
        },
        None => {
            assert(text =~= g_text);
        },
    }
    assert(skip_field(tail_rest(text), 'r') == tail_rest(g_text));
}

/// A code with a plain event is read back as itself once it is written.
pub proof fn lemma_event_activity_code_round_trip<E: EventIdentifier>(c: EventActivityCode<E>)
    requires
        is_plain_event(c@.event),
    ensures
        parse_event_activity_code::<E>(format_event_activity_code(c@)) == Ok::<
            _,
            ActivityCodeParseError,
        >(c@),
{
    let fields = written_u32('r', c.round) + written_u32('g', c.group) + written_u8(
        'a',
        c.attempt,
    );
    assert(format_event_activity_code(c@) =~= c@.event + fields);
    lemma_fields_round_trip(c.round, c.group, c.attempt);
    lemma_token_front(c@.event, '-', fields);
    c.event.lemma_event_code();
}

/// A round with a plain event is read back as itself once it is written.
pub proof fn lemma_round_id_round_trip<E: EventIdentifier>(c: RoundId<E>)
    requires
        is_plain_event(c@.event),
    ensures
        parse_round_id::<E>(format_round_id(c@)) == Ok::<_, ActivityCodeParseError>(c@),
{
    let field = numbered('r', c.round as nat);
    lemma_token_front(c@.event, '-', field);
    assert(field.skip(1).skip(1) =~= decimal(c.round as nat));
    lemma_parse_decimal(c.round as nat, 0xffff_ffff);
    c.event.lemma_event_code();
}

/// The code of an event of the regulations is plain.
pub proof fn lemma_official_event_plain(e: OfficialEventId)
    ensures
        is_plain_event(e.event_code()),
{
    e.lemma_code_round_trip();
}

/// An unofficial code that is canonical is read back as itself once it is written.
pub proof fn lemma_unofficial_activity_code_round_trip(c: UnofficialActivityCode)
    requires
        c@.is_canonical(),
    ensures
        parse_unofficial_activity_code(format_unofficial_activity_code(c@)) == Ok::<
            _,
            ActivityCodeParseError,
        >(c@),
{
    reveal_keywords();
    let text = format_unofficial_activity_code(c@);
    match c {
        UnofficialActivityCode::Event(e) => {
            let code = format_event_activity_code(e@);
            assert(text.subrange(0, 11) =~= "unofficial-"@);
            assert(text.skip(11) =~= code);
            assert(text[0] == 'u');
            lemma_event_activity_code_round_trip::<String>(e);
        },
        UnofficialActivityCode::Misc(Some(x)) => {
            assert(text.subrange(0, 5) =~= "misc-"@);
            assert(text.skip(5) =~= x@);
            assert(text[0] == 'm');
            assert(text[1] == 'i');
            assert(text[4] == '-');
        },
        _ => {},
    }
}

/// No official code starts with `other-`: what stands before the first `-`
/// is the code of an event, and `other` is none.
pub proof fn lemma_official_code_is_not_other(c: EventActivityCode<OfficialEventId>)
    ensures
        !"other-"@.is_prefix_of(format_event_activity_code(c@)),
{
    reveal_keywords();
    OfficialEventId::reveal_codes();
    let text = format_event_activity_code(c@);
    let fields = written_u32('r', c.round) + written_u32('g', c.group) + written_u8(
        'a',
        c.attempt,
    );
    assert(text =~= c@.event + fields);
    lemma_official_event_plain(c.event);
    lemma_fields_round_trip(c.round, c.group, c.attempt);
    lemma_token_front(c@.event, '-', fields);
    if "other-"@.is_prefix_of(text) {
        assert(text.subrange(0, 6) == "other-"@);
        assert forall|j: int| 0 <= j < 5 implies text[j] != '-' by {
            assert(text[j] == text.subrange(0, 6)[j]);
        }
        assert(text[5] == text.subrange(0, 6)[5]);
        lemma_index_from(text, '-', 0, 5);
        assert(c@.event =~= seq!['o', 't', 'h', 'e', 'r']);
    }
}

/// An activity code that is canonical is read back as itself once it is written.
pub proof fn lemma_activity_code_round_trip(c: ActivityCode)
    requires
        c@.is_canonical(),
    ensures
        parse_activity_code(format_activity_code(c@)) == Ok::<_, ActivityCodeParseError>(c@),
{
    reveal_keywords();
    let text = format_activity_code(c@);
    match c {
        ActivityCode::Official(e) => {
            lemma_official_event_plain(e.event);
            lemma_event_activity_code_round_trip::<OfficialEventId>(e);
            lemma_official_code_is_not_other(e);
        },
        ActivityCode::Unofficial(u) => {
            let code = format_unofficial_activity_code(u@);
            assert(text.subrange(0, 6) =~= "other-"@);
            assert(text.skip(6) =~= code);
            lemma_unofficial_activity_code_round_trip(u);
        },
    }
}

} // verus!
