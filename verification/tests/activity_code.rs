use std::cmp::Ordering;
use wcif::activity_code::{
    ActivityCode, ActivityCodeParseError, EventActivityCode, EventIdentifier, RoundId,
    UnofficialActivityCode,
};
use wcif::puzzle_types::OfficialEventId;
use wcif::text::ParseIntError;

fn official(
    event: OfficialEventId,
    round: Option<u32>,
    group: Option<u32>,
    attempt: Option<u8>,
) -> EventActivityCode<OfficialEventId> {
    EventActivityCode { event, round, group, attempt }
}

fn loose(
    event: &str,
    round: Option<u32>,
    group: Option<u32>,
    attempt: Option<u8>,
) -> EventActivityCode<String> {
    EventActivityCode { event: event.to_string(), round, group, attempt }
}

fn cube(round: Option<u32>, group: Option<u32>, attempt: Option<u8>) -> EventActivityCode<OfficialEventId> {
    official(OfficialEventId::Cube333, round, group, attempt)
}

#[test]
fn activity_code_full_official_code() {
    let expected = cube(Some(1), Some(2), Some(3));
    assert_eq!(
        ActivityCode::from_str("333-r1-g2-a3"),
        Ok(ActivityCode::Official(expected.clone()))
    );
    assert_eq!(EventActivityCode::<OfficialEventId>::from_str("333-r1-g2-a3"), Ok(expected.clone()));
    assert_eq!(expected.to_string(), "333-r1-g2-a3");
    assert_eq!(ActivityCode::Official(expected).to_string(), "333-r1-g2-a3");
}

#[test]
fn activity_code_full_code_with_loose_event() {
    let parsed = EventActivityCode::<String>::from_str("333-r1-g2-a3").unwrap();
    assert_eq!(parsed.event, "333");
    assert_eq!(parsed.round, Some(1));
    assert_eq!(parsed.group, Some(2));
    assert_eq!(parsed.attempt, Some(3));
    assert_eq!(parsed.to_string(), "333-r1-g2-a3");
}

#[test]
fn activity_code_misc_with_label() {
    assert_eq!(
        ActivityCode::from_str("other-misc-foo"),
        Ok(ActivityCode::Unofficial(UnofficialActivityCode::Misc(Some("foo".to_string()))))
    );
}

#[test]
fn activity_code_registration() {
    assert_eq!(
        ActivityCode::from_str("other-registration"),
        Ok(ActivityCode::Unofficial(UnofficialActivityCode::Registration))
    );
}

#[test]
fn activity_code_parse_trait() {
    assert_eq!(
        "other-lunch".parse::<ActivityCode>(),
        Ok(ActivityCode::Unofficial(UnofficialActivityCode::Lunch))
    );
    assert_eq!("lunch".parse::<UnofficialActivityCode>(), Ok(UnofficialActivityCode::Lunch));
    assert_eq!("333-r2".parse::<EventActivityCode<OfficialEventId>>(), Ok(cube(Some(2), None, None)));
    assert_eq!(
        "333-r2".parse::<RoundId<OfficialEventId>>(),
        Ok(RoundId { event: OfficialEventId::Cube333, round: 2 })
    );
}

#[test]
fn activity_code_every_keyword() {
    let keywords = [
        ("registration", UnofficialActivityCode::Registration),
        ("checkin", UnofficialActivityCode::Checkin),
        ("tutorial", UnofficialActivityCode::Tutorial),
        ("multi", UnofficialActivityCode::MultiSubmission),
        ("breakfast", UnofficialActivityCode::Breakfast),
        ("lunch", UnofficialActivityCode::Lunch),
        ("dinner", UnofficialActivityCode::Dinner),
        ("awards", UnofficialActivityCode::Awards),
        ("misc", UnofficialActivityCode::Misc(None)),
    ];
    for (text, code) in keywords {
        assert_eq!(UnofficialActivityCode::from_str(text), Ok(code.clone()));
        assert_eq!(code.to_string(), text);
        let whole = format!("other-{}", text);
        assert_eq!(ActivityCode::from_str(&whole), Ok(ActivityCode::Unofficial(code.clone())));
        assert_eq!(ActivityCode::Unofficial(code).to_string(), whole);
    }
}

#[test]
fn activity_code_misc_labels() {
    assert_eq!(
        UnofficialActivityCode::from_str("misc-"),
        Ok(UnofficialActivityCode::Misc(Some(String::new())))
    );
    assert_eq!(
        UnofficialActivityCode::from_str("misc-a-b-c"),
        Ok(UnofficialActivityCode::Misc(Some("a-b-c".to_string())))
    );
    assert_eq!(UnofficialActivityCode::Misc(Some("a-b".to_string())).to_string(), "misc-a-b");
    assert_eq!(UnofficialActivityCode::Misc(Some(String::new())).to_string(), "misc-");
}

#[test]
fn activity_code_unofficial_event() {
    assert_eq!(
        UnofficialActivityCode::from_str("unofficial-fto-r1-g3"),
        Ok(UnofficialActivityCode::Event(loose("fto", Some(1), Some(3), None)))
    );
    assert_eq!(
        ActivityCode::from_str("other-unofficial-333-a2"),
        Ok(ActivityCode::Unofficial(UnofficialActivityCode::Event(loose("333", None, None, Some(2)))))
    );
    assert_eq!(
        UnofficialActivityCode::Event(loose("fto", Some(1), None, None)).to_string(),
        "unofficial-fto-r1"
    );
    assert_eq!(
        ActivityCode::Unofficial(UnofficialActivityCode::Event(loose("fto", None, None, None)))
            .to_string(),
        "other-unofficial-fto"
    );
}

#[test]
fn activity_code_unofficial_event_errors_go_through() {
    assert_eq!(
        UnofficialActivityCode::from_str("unofficial-fto-r"),
        Err(ActivityCodeParseError::ParseIntError(ParseIntError::Empty))
    );
    assert_eq!(
        UnofficialActivityCode::from_str("unofficial-fto-rx"),
        Err(ActivityCodeParseError::ParseIntError(ParseIntError::InvalidDigit))
    );
    assert_eq!(
        ActivityCode::from_str("other-unofficial-fto-zz"),
        Err(ActivityCodeParseError::InvalidFormat)
    );
}

#[test]
fn activity_code_any_other_text_is_kept() {
    assert_eq!(
        UnofficialActivityCode::from_str("cleanup"),
        Ok(UnofficialActivityCode::Other("cleanup".to_string()))
    );
    assert_eq!(
        UnofficialActivityCode::from_str(""),
        Ok(UnofficialActivityCode::Other(String::new()))
    );
    assert_eq!(
        UnofficialActivityCode::from_str("unofficial"),
        Ok(UnofficialActivityCode::Other("unofficial".to_string()))
    );
    assert_eq!(
        UnofficialActivityCode::from_str("miscellaneous"),
        Ok(UnofficialActivityCode::Other("miscellaneous".to_string()))
    );
    assert_eq!(
        ActivityCode::from_str("other-"),
        Ok(ActivityCode::Unofficial(UnofficialActivityCode::Other(String::new())))
    );
    assert_eq!(UnofficialActivityCode::Other("cleanup".to_string()).to_string(), "cleanup");
}

#[test]
fn activity_code_other_is_not_always_read_back() {
    let written = UnofficialActivityCode::Other("lunch".to_string()).to_string();
    assert_eq!(UnofficialActivityCode::from_str(&written), Ok(UnofficialActivityCode::Lunch));
}

#[test]
fn activity_code_fields_may_be_left_out() {
    assert_eq!(EventActivityCode::<OfficialEventId>::from_str("333"), Ok(cube(None, None, None)));
    assert_eq!(EventActivityCode::<OfficialEventId>::from_str("333-r1"), Ok(cube(Some(1), None, None)));
    assert_eq!(EventActivityCode::<OfficialEventId>::from_str("333-g2"), Ok(cube(None, Some(2), None)));
    assert_eq!(EventActivityCode::<OfficialEventId>::from_str("333-a3"), Ok(cube(None, None, Some(3))));
    assert_eq!(EventActivityCode::<OfficialEventId>::from_str("333-r1-g2"), Ok(cube(Some(1), Some(2), None)));
    assert_eq!(EventActivityCode::<OfficialEventId>::from_str("333-r1-a3"), Ok(cube(Some(1), None, Some(3))));
    assert_eq!(EventActivityCode::<OfficialEventId>::from_str("333-g2-a3"), Ok(cube(None, Some(2), Some(3))));
}

#[test]
fn activity_code_numbers_as_std_reads_them() {
    assert_eq!(EventActivityCode::<OfficialEventId>::from_str("333-r+1"), Ok(cube(Some(1), None, None)));
    assert_eq!(EventActivityCode::<OfficialEventId>::from_str("333-r007"), Ok(cube(Some(7), None, None)));
    assert_eq!(
        EventActivityCode::<OfficialEventId>::from_str("333-r4294967295-g0-a255"),
        Ok(cube(Some(4294967295), Some(0), Some(255)))
    );
}

#[test]
fn activity_code_what_follows_the_attempt_is_not_read() {
    assert_eq!(
        EventActivityCode::<OfficialEventId>::from_str("333-r1-g2-a3-zzz"),
        Ok(cube(Some(1), Some(2), Some(3)))
    );
    assert_eq!(EventActivityCode::<OfficialEventId>::from_str("333-a3-r1"), Ok(cube(None, None, Some(3))));
}

#[test]
fn activity_code_missing_event() {
    assert_eq!(
        EventActivityCode::<OfficialEventId>::from_str(""),
        Err(ActivityCodeParseError::MissingEventId)
    );
    assert_eq!(
        EventActivityCode::<OfficialEventId>::from_str("-r1"),
        Err(ActivityCodeParseError::MissingEventId)
    );
    assert_eq!(ActivityCode::from_str(""), Err(ActivityCodeParseError::MissingEventId));
    assert_eq!(ActivityCode::from_str("-r1-g2"), Err(ActivityCodeParseError::MissingEventId));
}

#[test]
fn activity_code_loose_event_may_be_empty() {
    assert_eq!(EventActivityCode::<String>::from_str(""), Ok(loose("", None, None, None)));
    assert_eq!(EventActivityCode::<String>::from_str("-r1"), Ok(loose("", Some(1), None, None)));
    assert_eq!(
        EventActivityCode::<String>::from_str("-r1-g2-a3"),
        Ok(loose("", Some(1), Some(2), Some(3)))
    );
    assert_eq!(
        EventActivityCode::<String>::from_str("-x"),
        Err(ActivityCodeParseError::InvalidFormat)
    );
    assert_eq!(
        UnofficialActivityCode::from_str("unofficial-"),
        Ok(UnofficialActivityCode::Event(loose("", None, None, None)))
    );
    assert_eq!(
        ActivityCode::from_str("other-unofficial--g2"),
        Ok(ActivityCode::Unofficial(UnofficialActivityCode::Event(loose("", None, Some(2), None))))
    );
    assert_eq!(loose("", None, None, None).to_string(), "");
    assert_eq!(loose("", Some(1), None, None).to_string(), "-r1");
    assert_eq!(
        ActivityCode::Unofficial(UnofficialActivityCode::Event(loose("", None, None, None)))
            .to_string(),
        "other-unofficial-"
    );
    assert_eq!(RoundId::<String>::from_str("-r1"), Ok(RoundId { event: String::new(), round: 1 }));
    assert_eq!(RoundId { event: String::new(), round: 1 }.to_string(), "-r1");
}

#[test]
fn activity_code_invalid_event() {
    assert_eq!(
        EventActivityCode::<OfficialEventId>::from_str("abc-r1"),
        Err(ActivityCodeParseError::InvalidEventId)
    );
    assert_eq!(ActivityCode::from_str("other"), Err(ActivityCodeParseError::InvalidEventId));
    assert_eq!(ActivityCode::from_str("3333"), Err(ActivityCodeParseError::InvalidEventId));
    assert_eq!(EventActivityCode::<String>::from_str("abc-r1"), Ok(loose("abc", Some(1), None, None)));
}

#[test]
fn activity_code_token_out_of_order_is_invalid_format() {
    assert_eq!(
        EventActivityCode::<OfficialEventId>::from_str("333-x"),
        Err(ActivityCodeParseError::InvalidFormat)
    );
    assert_eq!(
        EventActivityCode::<OfficialEventId>::from_str("333-g1-r2"),
        Err(ActivityCodeParseError::InvalidFormat)
    );
    assert_eq!(
        EventActivityCode::<OfficialEventId>::from_str("333-r1-r2"),
        Err(ActivityCodeParseError::InvalidFormat)
    );
    assert_eq!(
        EventActivityCode::<OfficialEventId>::from_str("333-"),
        Err(ActivityCodeParseError::InvalidFormat)
    );
    assert_eq!(
        EventActivityCode::<OfficialEventId>::from_str("333-r1-"),
        Err(ActivityCodeParseError::InvalidFormat)
    );
}

#[test]
fn activity_code_bad_numbers() {
    let digit = Err(ActivityCodeParseError::ParseIntError(ParseIntError::InvalidDigit));
    let empty = Err(ActivityCodeParseError::ParseIntError(ParseIntError::Empty));
    let overflow = Err(ActivityCodeParseError::ParseIntError(ParseIntError::PosOverflow));
    assert_eq!(EventActivityCode::<OfficialEventId>::from_str("333-rx"), digit);
    assert_eq!(EventActivityCode::<OfficialEventId>::from_str("333-r1-g2x"), digit);
    assert_eq!(EventActivityCode::<OfficialEventId>::from_str("333-a-1"), empty);
    assert_eq!(EventActivityCode::<OfficialEventId>::from_str("333-r"), empty);
    assert_eq!(EventActivityCode::<OfficialEventId>::from_str("333-g"), empty);
    assert_eq!(EventActivityCode::<OfficialEventId>::from_str("333-a"), empty);
    assert_eq!(EventActivityCode::<OfficialEventId>::from_str("333-r4294967296"), overflow);
    assert_eq!(EventActivityCode::<OfficialEventId>::from_str("333-a256"), overflow);
}

#[test]
fn activity_code_first_error_wins() {
    assert_eq!(
        EventActivityCode::<OfficialEventId>::from_str("abc-rx"),
        Err(ActivityCodeParseError::InvalidEventId)
    );
    assert_eq!(
        EventActivityCode::<OfficialEventId>::from_str("333-rx-zz"),
        Err(ActivityCodeParseError::ParseIntError(ParseIntError::InvalidDigit))
    );
    assert_eq!(
        EventActivityCode::<OfficialEventId>::from_str("333-r1-g-zz"),
        Err(ActivityCodeParseError::ParseIntError(ParseIntError::Empty))
    );
}

#[test]
fn activity_code_error_messages() {
    assert_eq!(ActivityCodeParseError::MissingEventId.to_string(), "Missing event id");
    assert_eq!(ActivityCodeParseError::InvalidEventId.to_string(), "Not a valid event");
    assert_eq!(ActivityCodeParseError::MissingRoundPrefix.to_string(), "missing round prefix");
    assert_eq!(ActivityCodeParseError::InvalidFormat.to_string(), "invalid format");
    assert_eq!(
        ActivityCodeParseError::ParseIntError(ParseIntError::InvalidDigit).to_string(),
        "invalid digit found in string"
    );
}

#[test]
fn activity_code_format_every_shape() {
    assert_eq!(cube(None, None, None).to_string(), "333");
    assert_eq!(cube(Some(1), None, None).to_string(), "333-r1");
    assert_eq!(cube(None, Some(2), None).to_string(), "333-g2");
    assert_eq!(cube(None, None, Some(3)).to_string(), "333-a3");
    assert_eq!(cube(Some(10), Some(20), None).to_string(), "333-r10-g20");
    assert_eq!(cube(Some(1), None, Some(3)).to_string(), "333-r1-a3");
    assert_eq!(cube(None, Some(2), Some(3)).to_string(), "333-g2-a3");
    assert_eq!(
        official(OfficialEventId::MultiBlind333, Some(4294967295), Some(0), Some(255)).to_string(),
        "333mbf-r4294967295-g0-a255"
    );
}

#[test]
fn activity_code_round_trip_official() {
    let fields32 = [None, Some(0u32), Some(7), Some(4294967295)];
    let fields8 = [None, Some(0u8), Some(9), Some(255)];
    for event in OfficialEventId::all() {
        for round in fields32 {
            for group in fields32 {
                for attempt in fields8 {
                    let code = ActivityCode::Official(official(event, round, group, attempt));
                    assert_eq!(ActivityCode::from_str(&code.to_string()), Ok(code));
                }
            }
        }
    }
}

#[test]
fn activity_code_round_trip_unofficial() {
    let codes = [
        UnofficialActivityCode::Registration,
        UnofficialActivityCode::Checkin,
        UnofficialActivityCode::Tutorial,
        UnofficialActivityCode::MultiSubmission,
        UnofficialActivityCode::Breakfast,
        UnofficialActivityCode::Lunch,
        UnofficialActivityCode::Dinner,
        UnofficialActivityCode::Awards,
        UnofficialActivityCode::Misc(None),
        UnofficialActivityCode::Misc(Some("".to_string())),
        UnofficialActivityCode::Misc(Some("registration".to_string())),
        UnofficialActivityCode::Misc(Some("a-b".to_string())),
        UnofficialActivityCode::Event(loose("fto", None, None, None)),
        UnofficialActivityCode::Event(loose("r1", Some(2), None, Some(1))),
        UnofficialActivityCode::Event(loose("other", None, Some(2), None)),
        UnofficialActivityCode::Event(loose("", None, None, None)),
        UnofficialActivityCode::Event(loose("", Some(3), None, Some(1))),
        UnofficialActivityCode::Other("cleanup".to_string()),
    ];
    for code in codes {
        let whole = ActivityCode::Unofficial(code);
        assert_eq!(ActivityCode::from_str(&whole.to_string()), Ok(whole));
    }
}

#[test]
fn activity_code_event_with_separator_is_not_read_back() {
    let code = loose("a-r1", None, None, None);
    assert_eq!(
        EventActivityCode::<String>::from_str(&code.to_string()),
        Ok(loose("a", Some(1), None, None))
    );
}

#[test]
fn activity_code_is_official() {
    assert!(ActivityCode::Official(cube(None, None, None)).is_official());
    assert!(!ActivityCode::Unofficial(UnofficialActivityCode::Lunch).is_official());
    assert!(!ActivityCode::Unofficial(UnofficialActivityCode::Event(loose("333", None, None, None)))
        .is_official());
}

#[test]
fn specificity_round_is_less_than_its_group() {
    let round = cube(Some(1), None, None);
    let group = cube(Some(1), Some(2), None);
    assert_eq!(round.partial_cmp(&group), Some(Ordering::Less));
    assert_eq!(group.partial_cmp(&round), Some(Ordering::Greater));
    assert!(round < group);
    assert!(group > round);
    assert!(round <= group);
}

#[test]
fn specificity_different_rounds_are_incomparable() {
    let a = cube(Some(1), None, None);
    let b = cube(Some(2), None, None);
    assert_eq!(a.partial_cmp(&b), None);
    assert_eq!(b.partial_cmp(&a), None);
    assert!(!(a < b));
    assert!(!(a > b));
}

#[test]
fn specificity_different_events_are_incomparable() {
    for a in OfficialEventId::all() {
        for b in OfficialEventId::all() {
            if a != b {
                assert_eq!(official(a, None, None, None).partial_cmp(&official(b, None, None, None)), None);
                assert_eq!(
                    official(a, Some(1), None, None).partial_cmp(&official(b, Some(1), Some(2), None)),
                    None
                );
            }
        }
    }
    assert_eq!(loose("a", None, None, None).partial_cmp(&loose("b", None, None, None)), None);
}

#[test]
fn specificity_equal_codes() {
    assert_eq!(cube(None, None, None).partial_cmp(&cube(None, None, None)), Some(Ordering::Equal));
    assert_eq!(
        cube(Some(1), Some(2), Some(3)).partial_cmp(&cube(Some(1), Some(2), Some(3))),
        Some(Ordering::Equal)
    );
    assert_eq!(
        loose("x", Some(1), None, None).partial_cmp(&loose("x", Some(1), None, None)),
        Some(Ordering::Equal)
    );
}

#[test]
fn specificity_event_alone_is_least() {
    let event = cube(None, None, None);
    for other in [cube(Some(1), None, None), cube(None, Some(1), None), cube(None, None, Some(1)), cube(Some(1), Some(2), Some(3))] {
        assert_eq!(event.partial_cmp(&other), Some(Ordering::Less));
        assert_eq!(other.partial_cmp(&event), Some(Ordering::Greater));
    }
}

#[test]
fn specificity_attempt_decides_last() {
    assert_eq!(
        cube(Some(1), Some(2), None).partial_cmp(&cube(Some(1), Some(2), Some(3))),
        Some(Ordering::Less)
    );
    assert_eq!(
        cube(Some(1), Some(2), Some(3)).partial_cmp(&cube(Some(1), Some(2), None)),
        Some(Ordering::Greater)
    );
    assert_eq!(
        cube(Some(1), Some(2), Some(3)).partial_cmp(&cube(Some(1), Some(2), Some(4))),
        None
    );
    assert_eq!(
        cube(Some(1), None, None).partial_cmp(&cube(Some(1), Some(2), Some(3))),
        Some(Ordering::Less)
    );
}

#[test]
fn specificity_opposite_directions_are_incomparable() {
    assert_eq!(cube(Some(1), None, None).partial_cmp(&cube(None, Some(2), None)), None);
    assert_eq!(cube(None, Some(2), None).partial_cmp(&cube(Some(1), None, None)), None);
    assert_eq!(cube(Some(1), None, None).partial_cmp(&cube(None, None, Some(1))), None);
    assert_eq!(cube(Some(1), Some(2), None).partial_cmp(&cube(Some(1), None, Some(1))), None);
    assert_eq!(cube(None, Some(2), None).partial_cmp(&cube(None, Some(3), Some(1))), None);
}

#[test]
fn specificity_compare_is_partial_cmp() {
    let a = cube(Some(1), None, None);
    let b = cube(Some(1), Some(2), None);
    assert_eq!(a.compare(&b), a.partial_cmp(&b));
    assert_eq!(b.compare(&a), b.partial_cmp(&a));
}

#[test]
fn round_id_reads_and_writes() {
    let round = RoundId { event: OfficialEventId::Cube333, round: 1 };
    assert_eq!(RoundId::<OfficialEventId>::from_str("333-r1"), Ok(round.clone()));
    assert_eq!(round.to_string(), "333-r1");
    let loose_round = RoundId { event: "fto".to_string(), round: 12 };
    assert_eq!(RoundId::<String>::from_str("fto-r12"), Ok(loose_round.clone()));
    assert_eq!(loose_round.to_string(), "fto-r12");
}

#[test]
fn round_id_round_trip() {
    for event in OfficialEventId::all() {
        for round in [0u32, 1, 10, 4294967295] {
            let id = RoundId { event, round };
            assert_eq!(RoundId::<OfficialEventId>::from_str(&id.to_string()), Ok(id));
        }
    }
}

#[test]
fn round_id_errors() {
    assert_eq!(
        RoundId::<OfficialEventId>::from_str("333"),
        Err(ActivityCodeParseError::InvalidFormat)
    );
    assert_eq!(RoundId::<OfficialEventId>::from_str(""), Err(ActivityCodeParseError::InvalidFormat));
    assert_eq!(
        RoundId::<OfficialEventId>::from_str("-r1"),
        Err(ActivityCodeParseError::MissingEventId)
    );
    assert_eq!(
        RoundId::<OfficialEventId>::from_str("abc-r1"),
        Err(ActivityCodeParseError::InvalidEventId)
    );
    assert_eq!(
        RoundId::<OfficialEventId>::from_str("333-g1"),
        Err(ActivityCodeParseError::MissingRoundPrefix)
    );
    assert_eq!(
        RoundId::<OfficialEventId>::from_str("333-"),
        Err(ActivityCodeParseError::MissingRoundPrefix)
    );
    assert_eq!(
        RoundId::<OfficialEventId>::from_str("333-r"),
        Err(ActivityCodeParseError::ParseIntError(ParseIntError::Empty))
    );
    assert_eq!(
        RoundId::<OfficialEventId>::from_str("333-r1-g2"),
        Err(ActivityCodeParseError::ParseIntError(ParseIntError::InvalidDigit))
    );
    assert_eq!(
        RoundId::<OfficialEventId>::from_str("333-r4294967296"),
        Err(ActivityCodeParseError::ParseIntError(ParseIntError::PosOverflow))
    );
}

#[test]
fn round_id_widens_to_a_code() {
    let round = RoundId { event: OfficialEventId::Cube333, round: 1 };
    assert_eq!(EventActivityCode::from(&round), cube(Some(1), None, None));
    assert_eq!(EventActivityCode::from_round_id(&round), cube(Some(1), None, None));
    assert_eq!(EventActivityCode::from(&OfficialEventId::Clock), official(OfficialEventId::Clock, None, None, None));
    assert_eq!(EventActivityCode::from_event(&"fto".to_string()), loose("fto", None, None, None));
    assert_eq!(OfficialEventId::from(&official(OfficialEventId::Skewb, Some(1), None, None)), OfficialEventId::Skewb);
}

#[test]
fn round_id_compares_with_codes() {
    let round = RoundId { event: OfficialEventId::Cube333, round: 1 };
    assert!(round == cube(Some(1), None, None));
    assert!(round != cube(Some(1), Some(2), None));
    assert!(round != cube(Some(2), None, None));
    assert!(round != official(OfficialEventId::Cube222, Some(1), None, None));
    assert!(round.is_code(&cube(Some(1), None, None)));
    assert_eq!(round.partial_cmp(&cube(Some(1), Some(2), None)), Some(Ordering::Less));
    assert_eq!(round.partial_cmp(&cube(None, None, None)), Some(Ordering::Greater));
    assert_eq!(round.partial_cmp(&cube(Some(1), None, None)), Some(Ordering::Equal));
    assert_eq!(round.partial_cmp(&cube(Some(2), None, None)), None);
    assert_eq!(round.compare_code(&cube(Some(1), None, Some(1))), Some(Ordering::Less));
    assert!(round < cube(Some(1), Some(2), None));
}

#[test]
fn event_identifier_of_texts_and_events() {
    assert_eq!(String::from_token("anything"), Some("anything".to_string()));
    assert_eq!("fto".to_string().to_token(), "fto");
    assert!("a".to_string().same_event(&"a".to_string()));
    assert!(!"a".to_string().same_event(&"b".to_string()));
    assert_eq!("a".to_string().duplicate(), "a");
    assert_eq!(OfficialEventId::from_token("sq1"), Some(OfficialEventId::Square1));
    assert_eq!(OfficialEventId::from_token("sq2"), None);
    assert_eq!(OfficialEventId::Square1.to_token(), "sq1");
    assert!(OfficialEventId::Square1.same_event(&OfficialEventId::Square1));
    assert!(!OfficialEventId::Square1.same_event(&OfficialEventId::Skewb));
    assert_eq!(OfficialEventId::Square1.duplicate(), OfficialEventId::Square1);
}
