use wcif::activity_code::{ActivityCode, EventActivityCode, RoundId, UnofficialActivityCode};
use wcif::assignment::{AssignmentCode, StaffAssignment};
use wcif::attempt_result::AttemptResult;
use wcif::delegate_dashboard::{GroupsConfig, GroupsExtension};
use wcif::groupifier::{
    ActivityConfig, ActivityConfigExtension, CompetitionConfig, CompetitionConfigExtension,
    CompetitorsSortingRule, RoomConfig, RoomConfigExtension, ScorecardOrder, ScorecardPaperSize,
};
use wcif::puzzle_types::OfficialEventId;
use wcif::types::{
    Activity, Assignment, Avatar, Competition, Event, Extension, Gender, Person, PersonalBest,
    PrivateCompetition, PrivatePerson, PrivateRegistration, Registration, RegistrationInfo,
    RegistrationStatus, ResultType, Role, Round, RoundFormat, Schedule, Series, UnknownExtension,
    Venue, Room,
};
use wcif::wca_id::WCAId;

fn at(hour: u32, minute: u32) -> chrono::NaiveDateTime {
    chrono::NaiveDate::from_ymd_opt(2024, 5, 4).unwrap().and_hms_opt(hour, minute, 0).unwrap()
}

fn day(d: u32) -> chrono::NaiveDate {
    chrono::NaiveDate::from_ymd_opt(2024, 5, d).unwrap()
}

fn activity(id: u32, start: chrono::NaiveDateTime, end: chrono::NaiveDateTime) -> Activity {
    Activity {
        id,
        name: format!("activity {}", id),
        activity_code: ActivityCode::Unofficial(UnofficialActivityCode::Lunch),
        start_time: start,
        end_time: end,
        child_activities: Vec::new(),
        scramble_set_id: None,
        extensions: Vec::new(),
    }
}

fn unknown_extension() -> Extension {
    Extension::Unknown(UnknownExtension {
        id: "some.tool".to_string(),
        spec_url: "https://example.org/spec.json".to_string(),
        data: serde_json::Value::from(12),
    })
}

fn private_registration() -> PrivateRegistration {
    PrivateRegistration {
        wca_registration_id: 77,
        event_ids: vec![OfficialEventId::Cube333, OfficialEventId::Clock],
        status: RegistrationStatus::Accepted,
        guests: 2,
        comments: "see you".to_string(),
        administrative_notes: "paid".to_string(),
        is_competing: true,
    }
}

fn private_person(name: &str, registration: Option<PrivateRegistration>) -> PrivatePerson {
    PrivatePerson {
        registrant_id: Some(3),
        name: name.to_string(),
        wca_user_id: 1234,
        wca_id: Some(WCAId { year: 2015, name: "DOEJ".to_string(), discriminant: 1 }),
        country_iso2: "FR".to_string(),
        gender: Gender::Other,
        birthdate: day(1),
        email: "jane@example.org".to_string(),
        avatar: Some(Avatar { url: "u".to_string(), thumb_url: "t".to_string() }),
        roles: vec![Role::Delegate, Role::Other("mascot".to_string())],
        registration,
        assignments: vec![Assignment {
            activity_id: 9,
            assignment_code: AssignmentCode::Staff(StaffAssignment::Judge),
            station_number: Some(4),
        }],
        personal_bests: vec![PersonalBest {
            event_id: OfficialEventId::Cube333,
            best: AttemptResult::Success(532),
            _type: ResultType::Single,
            world_ranking: 10,
            continental_ranking: 5,
            national_ranking: 1,
        }],
        extensions: vec![unknown_extension()],
    }
}

fn public_person(name: &str, registration: Option<Registration>) -> Person {
    Person {
        registrant_id: Some(3),
        name: name.to_string(),
        wca_user_id: 1234,
        wca_id: Some(WCAId { year: 2015, name: "DOEJ".to_string(), discriminant: 1 }),
        country_iso2: "FR".to_string(),
        gender: Gender::Other,
        avatar: Some(Avatar { url: "u".to_string(), thumb_url: "t".to_string() }),
        roles: vec![Role::Delegate, Role::Other("mascot".to_string())],
        registration,
        assignments: vec![Assignment {
            activity_id: 9,
            assignment_code: AssignmentCode::Staff(StaffAssignment::Judge),
            station_number: Some(4),
        }],
        personal_bests: vec![PersonalBest {
            event_id: OfficialEventId::Cube333,
            best: AttemptResult::Success(532),
            _type: ResultType::Single,
            world_ranking: 10,
            continental_ranking: 5,
            national_ranking: 1,
        }],
        extensions: vec![unknown_extension()],
    }
}

fn public_registration() -> Registration {
    Registration {
        wca_registration_id: 77,
        event_ids: vec![OfficialEventId::Cube333, OfficialEventId::Clock],
        status: RegistrationStatus::Accepted,
        is_competing: true,
    }
}

fn schedule() -> Schedule {
    Schedule {
        start_date: day(4),
        number_of_days: 2,
        venues: vec![Venue {
            id: 1,
            name: "Hall".to_string(),
            latitude_microdegrees: 48_000_000,
            longitude_microdegrees: 2_000_000,
            country_iso2: "FR".to_string(),
            timezone: "Europe/Paris".to_string(),
            rooms: vec![Room {
                id: 1,
                name: "Main".to_string(),
                color: "#ff0000".to_string(),
                activities: vec![activity(1, at(9, 0), at(10, 0))],
                extensions: Vec::new(),
            }],
            extensions: Vec::new(),
        }],
    }
}

fn events() -> Vec<Event> {
    vec![Event {
        id: OfficialEventId::Cube333,
        rounds: vec![Round {
            id: RoundId { event: OfficialEventId::Cube333, round: 1 },
            format: RoundFormat::AverageOf5,
            time_limit: None,
            cutoff: None,
            advancement_condition: None,
            results: Vec::new(),
            scramble_set_count: 1,
            scramble_sets: Vec::new(),
            extensions: Vec::new(),
        }],
        competitor_limit: None,
        qualification: None,
        extensions: Vec::new(),
    }]
}

fn registration_info() -> RegistrationInfo {
    RegistrationInfo {
        open_time: at(0, 0),
        close_time: at(23, 59),
        base_entry_fee: 1500,
        currency_code: "EUR".to_string(),
        on_the_spot_registration: false,
        use_wca_registration: true,
    }
}

#[test]
fn registration_from_private_drops_what_is_private() {
    assert_eq!(Registration::from(private_registration()), public_registration());
}

#[test]
fn registration_from_private_keeps_each_field() {
    let private = PrivateRegistration {
        wca_registration_id: 1,
        event_ids: Vec::new(),
        status: RegistrationStatus::Deleted,
        guests: 0,
        comments: String::new(),
        administrative_notes: String::new(),
        is_competing: false,
    };
    let public = Registration::from(private);
    assert_eq!(public.wca_registration_id, 1);
    assert!(public.event_ids.is_empty());
    assert_eq!(public.status, RegistrationStatus::Deleted);
    assert!(!public.is_competing);
}

#[test]
fn person_from_private_drops_what_is_private() {
    assert_eq!(
        Person::from(private_person("Jane", Some(private_registration()))),
        public_person("Jane", Some(public_registration()))
    );
    assert_eq!(Person::from(private_person("Joe", None)), public_person("Joe", None));
}

#[test]
fn competition_from_private_converts_every_person() {
    let private = PrivateCompetition {
        id: "Example2024".to_string(),
        name: "Example Open 2024".to_string(),
        short_name: "Example 2024".to_string(),
        series: Some(Series {
            id: "ExampleSeries".to_string(),
            name: "Example Series".to_string(),
            short_name: "Series".to_string(),
            competitions_ids: vec!["Example2024".to_string(), "Example2025".to_string()],
        }),
        persons: vec![
            private_person("Jane", Some(private_registration())),
            private_person("Joe", None),
            private_person("Ann", Some(private_registration())),
        ],
        events: events(),
        schedule: schedule(),
        registration_info: registration_info(),
        competitor_limit: Some(100),
        extensions: vec![unknown_extension()],
    };
    let expected = Competition {
        id: "Example2024".to_string(),
        name: "Example Open 2024".to_string(),
        short_name: "Example 2024".to_string(),
        series: Some(Series {
            id: "ExampleSeries".to_string(),
            name: "Example Series".to_string(),
            short_name: "Series".to_string(),
            competitions_ids: vec!["Example2024".to_string(), "Example2025".to_string()],
        }),
        persons: vec![
            public_person("Jane", Some(public_registration())),
            public_person("Joe", None),
            public_person("Ann", Some(public_registration())),
        ],
        events: events(),
        schedule: schedule(),
        registration_info: registration_info(),
        competitor_limit: Some(100),
        extensions: vec![unknown_extension()],
    };
    assert_eq!(private.format_version(), "1.0");
    let public = Competition::from(private);
    assert_eq!(public.format_version(), "1.0");
    assert_eq!(public, expected);
}

#[test]
fn competition_from_private_without_persons() {
    let private = PrivateCompetition {
        id: "Empty".to_string(),
        name: "Empty".to_string(),
        short_name: "Empty".to_string(),
        series: None,
        persons: Vec::new(),
        events: Vec::new(),
        schedule: schedule(),
        registration_info: registration_info(),
        competitor_limit: None,
        extensions: Vec::new(),
    };
    let public = Competition::from(private);
    assert!(public.persons.is_empty());
    assert_eq!(public.id, "Empty");
    assert_eq!(public.series, None);
    assert_eq!(public.competitor_limit, None);
}

#[test]
fn role_is_delegate() {
    assert!(Role::Delegate.is_delegate());
    assert!(Role::TraineeDelegate.is_delegate());
    assert!(!Role::Organizer.is_delegate());
    assert!(!Role::Other("delegate".to_string()).is_delegate());
}

#[test]
fn round_format_expected_solve_count() {
    assert_eq!(RoundFormat::BestOf1.expected_solve_count(), 1);
    assert_eq!(RoundFormat::BestOf2.expected_solve_count(), 2);
    assert_eq!(RoundFormat::BestOf3.expected_solve_count(), 3);
    assert_eq!(RoundFormat::AverageOf5.expected_solve_count(), 5);
    assert_eq!(RoundFormat::MeanOf3.expected_solve_count(), 3);
}

#[test]
fn round_format_sort_by() {
    assert_eq!(RoundFormat::BestOf1.sort_by(), ResultType::Single);
    assert_eq!(RoundFormat::BestOf2.sort_by(), ResultType::Single);
    assert_eq!(RoundFormat::BestOf3.sort_by(), ResultType::Single);
    assert_eq!(RoundFormat::AverageOf5.sort_by(), ResultType::Average);
    assert_eq!(RoundFormat::MeanOf3.sort_by(), ResultType::Average);
}

#[test]
fn activity_duration() {
    assert_eq!(
        activity(1, at(9, 0), at(10, 30)).get_duration(),
        chrono::TimeDelta::try_minutes(90).unwrap()
    );
    assert_eq!(activity(1, at(9, 0), at(9, 0)).get_duration(), chrono::TimeDelta::zero());
}

#[test]
fn activity_duration_is_negative_when_the_end_comes_first() {
    assert_eq!(
        activity(1, at(10, 30), at(9, 0)).get_duration(),
        chrono::TimeDelta::try_minutes(-90).unwrap()
    );
}

#[test]
fn activity_clone_copies_the_children() {
    let mut parent = activity(1, at(9, 0), at(12, 0));
    let mut child = activity(2, at(9, 0), at(10, 0));
    child.child_activities.push(activity(3, at(9, 0), at(9, 30)));
    child.activity_code = ActivityCode::Official(EventActivityCode {
        event: OfficialEventId::Cube333,
        round: Some(1),
        group: Some(2),
        attempt: None,
    });
    child.scramble_set_id = Some(8);
    child.extensions.push(unknown_extension());
    parent.child_activities.push(child);
    parent.child_activities.push(activity(4, at(10, 0), at(12, 0)));
    let copy = parent.clone();
    assert_eq!(copy, parent);
    assert_eq!(copy.child_activities.len(), 2);
    assert_eq!(copy.child_activities[0].child_activities[0].id, 3);
}

#[test]
fn extension_identifiers() {
    let activity_config = ActivityConfigExtension {
        spec_url: "https://groupifier.jonatanklosko.com/wcif-extensions/ActivityConfig.json".to_string(),
        data: ActivityConfig {
            capacity_bits: 1.0f32.to_bits(),
            groups: 4,
            scramblers: 2,
            runners: 1,
            assign_judges: true,
            featured_competitors_wca_user_ids: vec![1, 2],
        },
    };
    assert_eq!(activity_config.id(), "groupifier.ActivityConfig");
    assert_eq!(f32::from_bits(activity_config.data.capacity_bits), 1.0);
    let competition_config = CompetitionConfigExtension {
        spec_url: String::new(),
        data: CompetitionConfig {
            local_names_first: false,
            scorecards_background_url: None,
            competitors_sorting_rule: CompetitorsSortingRule::Balanced,
            no_tasks_for_newcomers: true,
            tasks_for_own_events_only: false,
            no_running_for_foreigners: None,
            print_stations: Some(true),
            scorecard_paper_size: Some(ScorecardPaperSize::A4),
            scorecard_order: Some(ScorecardOrder::Natural),
        },
    };
    assert_eq!(competition_config.id(), "groupifier.CompetitionConfig");
    let room_config = RoomConfigExtension { spec_url: String::new(), data: RoomConfig { stations: 8 } };
    assert_eq!(room_config.id(), "groupifier.RoomConfig");
    let groups = GroupsExtension {
        data: GroupsConfig { groups: 3, spread_groups_across_all_stages: Some(false) },
    };
    assert_eq!(groups.id(), "undefined.groups");
    assert_eq!(
        groups.spec_url(),
        "https://github.com/coder13/delegateDashboard/blob/main/public/wcif-extensions/groups.json"
    );
    let extensions = vec![
        Extension::GroupifierActivityConfig(activity_config),
        Extension::GroupifierCompetitionConfig(competition_config),
        Extension::GroupifierRoomConfig(room_config),
        Extension::DelegateDashboardGroups(groups),
    ];
    assert_eq!(extensions.clone(), extensions);
}
