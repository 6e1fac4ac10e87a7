//! The interchange document of a competition: its persons, events, rounds,
//! results and schedule.
//!
//! The types here hold the document field by field. The compact values
//! among the fields (attempt results, activity codes, identifiers,
//! assignment codes) have their codecs in the modules of their own.

use vstd::prelude::*;
use crate::activity_code;
use crate::assignment::AssignmentCode;
use crate::attempt_result;
use crate::delegate_dashboard::GroupsExtension;
use crate::groupifier::{ActivityConfigExtension, CompetitionConfigExtension, RoomConfigExtension};
use crate::puzzle_types::{OfficialEventId, OfficialPuzzleType};
use crate::time::{duration_between, span_between};
use crate::wca_id::WCAId;

verus! {

pub type CompetitionId = String;

pub type SeriesId = String;

pub type PersonId = u32;

pub type VenueId = u32;

pub type ActivityId = u32;

pub type WCAUserId = u64;

pub type WCARegistrationId = u32;

pub type ScrambleSetId = u32;

pub type RoomId = u32;

pub type CountryCode = String;

pub type CurrencyCode = String;

/// A calendar date.
pub type Date = chrono::NaiveDate;

/// A point in time, in UTC.
pub type DateTime = chrono::NaiveDateTime;

pub type EventId = OfficialEventId;

pub type PuzzleType = OfficialPuzzleType;

pub type ActivityCode = activity_code::ActivityCode;

pub type RoundId = activity_code::RoundId<EventId>;

pub type RoundIdType = activity_code::RoundIdType;

pub type GroupIdType = activity_code::GroupIdType;

pub type AttemptIdType = activity_code::AttemptIdType;

pub type EventActivityCode = activity_code::EventActivityCode<EventId>;

pub type UnofficialActivityCode = activity_code::UnofficialActivityCode;

pub type UnofficialEventActivityCode = activity_code::EventActivityCode<String>;

pub type CentiSecondsResultValue = attempt_result::CentiSecondAttemptResultValue;

pub type FMCResultValue = attempt_result::FMCAttemptResultValue;

pub type AttemptResult = attempt_result::AttemptResult<CentiSecondsResultValue>;

pub type MultiBlindResultValue = attempt_result::MultiBlindAttemptResultValue;

pub type MultiBlindAttemptResult = attempt_result::AttemptResult<MultiBlindResultValue>;

/// A place in a ranking.
pub type Ranking = u64;

/// A share of the competitors, in percent.
pub type Percent = u8;

/// The moves that scramble a puzzle.
pub type Scramble = String;

/// A competition as everybody may see it. Its format version is always `1.0`.
#[derive(Clone, Debug, PartialEq)]
pub struct Competition {
    pub id: CompetitionId,
    pub name: String,
    pub short_name: String,
    pub series: Option<Series>,
    pub persons: Vec<Person>,
    pub events: Vec<Event>,
    pub schedule: Schedule,
    pub registration_info: RegistrationInfo,
    pub competitor_limit: Option<u32>,
    pub extensions: Vec<Extension>,
}

/// A competition as its organizers see it. Its format version is always `1.0`.
#[derive(Clone, Debug, PartialEq)]
pub struct PrivateCompetition {
    pub id: CompetitionId,
    pub name: String,
    pub short_name: String,
    pub series: Option<Series>,
    pub persons: Vec<PrivatePerson>,
    pub events: Vec<Event>,
    pub schedule: Schedule,
    pub registration_info: RegistrationInfo,
    pub competitor_limit: Option<u32>,
    pub extensions: Vec<Extension>,
}

/// Competitions that belong together.
#[derive(Clone, Debug, PartialEq)]
pub struct Series {
    pub id: SeriesId,
    pub name: String,
    pub short_name: String,
    pub competitions_ids: Vec<CompetitionId>,
}

/// A person as everybody may see them.
#[derive(Clone, Debug, PartialEq)]
pub struct Person {
    pub registrant_id: Option<PersonId>,
    pub name: String,
    pub wca_user_id: WCAUserId,
    pub wca_id: Option<WCAId>,
    pub country_iso2: CountryCode,
    pub gender: Gender,
    pub avatar: Option<Avatar>,
    pub roles: Vec<Role>,
    pub registration: Option<Registration>,
    pub assignments: Vec<Assignment>,
    pub personal_bests: Vec<PersonalBest>,
    pub extensions: Vec<Extension>,
}

/// A person as the organizers see them.
#[derive(Clone, Debug, PartialEq)]
pub struct PrivatePerson {
    pub registrant_id: Option<PersonId>,
    pub name: String,
    pub wca_user_id: WCAUserId,
    pub wca_id: Option<WCAId>,
    pub country_iso2: CountryCode,
    pub gender: Gender,
    pub birthdate: Date,
    pub email: String,
    pub avatar: Option<Avatar>,
    pub roles: Vec<Role>,
    pub registration: Option<PrivateRegistration>,
    pub assignments: Vec<Assignment>,
    pub personal_bests: Vec<PersonalBest>,
    pub extensions: Vec<Extension>,
}

#[derive(Clone, Debug, PartialEq, Hash)]
pub enum Gender {
    Male,
    Female,
    Other,
}

/// What a person is at a competition, besides a competitor.
#[derive(Clone, Debug, PartialEq, Hash)]
pub enum Role {
    Delegate,
    TraineeDelegate,
    Organizer,
    /// A role that this library has no name for, as it was written.
    Other(String),
}

/// A registration as everybody may see it.
#[derive(Clone, Debug, PartialEq)]
pub struct Registration {
    pub wca_registration_id: WCARegistrationId,
    pub event_ids: Vec<EventId>,
    pub status: RegistrationStatus,
    pub is_competing: bool,
}

/// A registration as the organizers see it.
#[derive(Clone, Debug, PartialEq)]
pub struct PrivateRegistration {
    pub wca_registration_id: WCARegistrationId,
    pub event_ids: Vec<EventId>,
    pub status: RegistrationStatus,
    pub guests: u32,
    pub comments: String,
    pub administrative_notes: String,
    pub is_competing: bool,
}

#[derive(Clone, Debug, PartialEq, Hash)]
pub enum RegistrationStatus {
    Accepted,
    Pending,
    Deleted,
}

/// When and how persons register.
#[derive(Clone, Debug, PartialEq)]
pub struct RegistrationInfo {
    pub open_time: DateTime,
    pub close_time: DateTime,
    pub base_entry_fee: u64,
    pub currency_code: CurrencyCode,
    pub on_the_spot_registration: bool,
    pub use_wca_registration: bool,
}

#[derive(Clone, Debug, PartialEq)]
pub struct Avatar {
    pub url: String,
    pub thumb_url: String,
}

/// What a person does during an activity.
#[derive(Clone, Debug, PartialEq)]
pub struct Assignment {
    pub activity_id: ActivityId,
    pub assignment_code: AssignmentCode,
    pub station_number: Option<u32>,
}

/// The best result of a person in an event, and where it ranks.
#[derive(Clone, Debug, PartialEq)]
pub struct PersonalBest {
    pub event_id: EventId,
    pub best: AttemptResult,
    pub _type: ResultType,
    pub world_ranking: u64,
    pub continental_ranking: u64,
    pub national_ranking: u64,
}

#[derive(Clone, Debug, PartialEq)]
pub struct Event {
    pub id: EventId,
    pub rounds: Vec<Round>,
    pub competitor_limit: Option<u32>,
    pub qualification: Option<Qualification>,
    pub extensions: Vec<Extension>,
}

#[derive(Clone, Debug, PartialEq)]
pub struct Round {
    pub id: RoundId,
    pub format: RoundFormat,
    pub time_limit: Option<TimeLimit>,
    pub cutoff: Option<Cutoff>,
    pub advancement_condition: Option<AdvancementCondition>,
    pub results: Vec<RoundResult>,
    pub scramble_set_count: u32,
    pub scramble_sets: Vec<ScrambleSet>,
    pub extensions: Vec<Extension>,
}

/// How many attempts a round has, and which of their results ranks it.
#[derive(Clone, Debug, PartialEq, Hash)]
pub enum RoundFormat {
    BestOf1,
    BestOf2,
    BestOf3,
    AverageOf5,
    MeanOf3,
}

#[derive(Clone, Debug, PartialEq)]
pub struct TimeLimit {
    pub centiseconds: u32,
    pub cumulative_round_ids: Vec<RoundId>,
}

#[derive(Clone, Debug, PartialEq)]
pub struct Cutoff {
    pub number_of_attempts: usize,
    pub attempt_result: AttemptResult,
}

/// Who advances to the next round.
#[derive(Clone, Debug, PartialEq, Hash)]
pub enum AdvancementCondition {
    Ranking { level: Ranking },
    Percent { level: Percent },
    AttemptResult { level: AttemptResult },
}

#[derive(Clone, Debug, PartialEq)]
pub struct Qualification {
    pub when_date: Date,
    pub _type: QualificationType,
    pub result_type: ResultType,
}

/// What qualifies a person for an event.
#[derive(Clone, Debug, PartialEq)]
pub enum QualificationType {
    AttemptResult(AttemptResult),
    Ranking(Ranking),
    AnyResult(),
}

#[derive(Clone, Debug, PartialEq)]
pub struct RoundResult {
    pub person_id: PersonId,
    pub ranking: Option<u64>,
    pub attempts: Vec<Attempt>,
    pub best: AttemptResult,
    pub average: AttemptResult,
}

#[derive(Clone, Debug, PartialEq)]
pub struct Attempt {
    pub result: AttemptResult,
    pub reconstruction: Option<String>,
}

#[derive(Clone, Debug, PartialEq)]
pub struct ScrambleSet {
    pub id: ScrambleSetId,
    pub scrambles: Vec<Scramble>,
    pub extra_scrambles: Vec<Scramble>,
}

#[derive(Clone, Debug, PartialEq)]
pub struct Schedule {
    pub start_date: Date,
    pub number_of_days: u8,
    pub venues: Vec<Venue>,
}

#[derive(Clone, Debug, PartialEq)]
pub struct Venue {
    pub id: VenueId,
    pub name: String,
    pub latitude_microdegrees: u32,
    pub longitude_microdegrees: u32,
    pub country_iso2: CountryCode,
    pub timezone: String,
    pub rooms: Vec<Room>,
    pub extensions: Vec<Extension>,
}

#[derive(Clone, Debug, PartialEq)]
pub struct Room {
    pub id: RoomId,
    pub name: String,
    pub color: String,
    pub activities: Vec<Activity>,
    pub extensions: Vec<Extension>,
}

/// Which result of a round is meant.
#[derive(Clone, Debug, PartialEq, Hash)]
pub enum ResultType {
    Single,
    Average,
}

/// A slot of the schedule, with the slots that it is split into.
#[derive(Debug, PartialEq)]
pub struct Activity {
    pub id: ActivityId,
    pub name: String,
    pub activity_code: ActivityCode,
    pub start_time: DateTime,
    pub end_time: DateTime,
    pub child_activities: Vec<Activity>,
    pub scramble_set_id: Option<ScrambleSetId>,
    pub extensions: Vec<Extension>,
}

/// Data that a tool has added to the document.
#[derive(Clone, Debug, PartialEq)]
pub enum Extension {
    GroupifierCompetitionConfig(CompetitionConfigExtension),
    GroupifierActivityConfig(ActivityConfigExtension),
    GroupifierRoomConfig(RoomConfigExtension),
    DelegateDashboardGroups(GroupsExtension),
    Unknown(UnknownExtension),
}

/// Data of a tool that this library does not know.
#[derive(Clone, Debug, PartialEq)]
pub struct UnknownExtension {
    pub id: String,
    pub spec_url: String,
    pub data: serde_json::Value,
}

impl Competition {
    /// The version of the format that every competition is held in.
    pub fn format_version(&self) -> (r: &'static str)
        ensures
            r@ == "1.0"@,
    {
        "1.0"
    }
}

impl PrivateCompetition {
    /// The version of the format that every competition is held in.
    pub fn format_version(&self) -> (r: &'static str)
        ensures
            r@ == "1.0"@,
    {
        "1.0"
    }

    /// Whether `public` is this competition as everybody may see it: each
    /// person without what is private, everything else as it is.
    pub open spec fn is_published_as(self, public: Competition) -> bool {
        &&& public.id == self.id
        &&& public.name == self.name
        &&& public.short_name == self.short_name
        &&& public.series == self.series
        &&& public.persons@.len() == self.persons@.len()
        &&& forall|i: int|
            0 <= i < self.persons@.len() ==> public.persons@[i] == (
            #[trigger] self.persons@[i]).public()
        &&& public.events == self.events
        &&& public.schedule == self.schedule
        &&& public.registration_info == self.registration_info
        &&& public.competitor_limit == self.competitor_limit
        &&& public.extensions == self.extensions
    }
}

impl PrivateRegistration {
    /// This registration as everybody may see it: without the number of
    /// guests, the comments and the notes.
    pub open spec fn public(self) -> Registration {
        Registration {
            wca_registration_id: self.wca_registration_id,
            event_ids: self.event_ids,
            status: self.status,
            is_competing: self.is_competing,
        }
    }
}

impl PrivatePerson {
    /// This person as everybody may see them: without the date of birth
    /// and the e-mail address, and with the registration as everybody may
    /// see it.
    pub open spec fn public(self) -> Person {
        Person {
            registrant_id: self.registrant_id,
            name: self.name,
            wca_user_id: self.wca_user_id,
            wca_id: self.wca_id,
            country_iso2: self.country_iso2,
            gender: self.gender,
            avatar: self.avatar,
            roles: self.roles,
            registration: match self.registration {
                Some(r) => Some(r.public()),
                None => None,
            },
            assignments: self.assignments,
            personal_bests: self.personal_bests,
            extensions: self.extensions,
        }
    }
}

impl vstd::std_specs::convert::FromSpecImpl<PrivateRegistration> for Registration {
    open spec fn obeys_from_spec() -> bool {
        true
    }

    open spec fn from_spec(value: PrivateRegistration) -> Self {
        value.public()
    }
}

impl From<PrivateRegistration> for Registration {
    /// The registration as everybody may see it.
    fn from(value: PrivateRegistration) -> (r: Self)
        ensures
            r == value.public(),
    {
        Self {
            wca_registration_id: value.wca_registration_id,
            event_ids: value.event_ids,
            status: value.status,
            is_competing: value.is_competing,
        }
    }
}

impl vstd::std_specs::convert::FromSpecImpl<PrivatePerson> for Person {
    open spec fn obeys_from_spec() -> bool {
        true
    }

    open spec fn from_spec(value: PrivatePerson) -> Self {
        value.public()
    }
}

impl From<PrivatePerson> for Person {
    /// The person as everybody may see them.
    fn from(value: PrivatePerson) -> (r: Self)
        ensures
            r == value.public(),
    {
        Self {
            registrant_id: value.registrant_id,
            name: value.name,
            wca_user_id: value.wca_user_id,
            wca_id: value.wca_id,
            country_iso2: value.country_iso2,
            gender: value.gender,
            avatar: value.avatar,
            roles: value.roles,
            registration: match value.registration {
                Some(x) => Some(Registration::from(x)),
                None => None,
            },
            assignments: value.assignments,
            personal_bests: value.personal_bests,
            extensions: value.extensions,
        }
    }
}

impl vstd::std_specs::convert::FromSpecImpl<PrivateCompetition> for Competition {
    /// The competition that a conversion gives is described by
    /// `PrivateCompetition::is_published_as`, not by `from_spec`.
    open spec fn obeys_from_spec() -> bool {
        false
    }

    open spec fn from_spec(value: PrivateCompetition) -> Self {
        arbitrary()
    }
}

impl From<PrivateCompetition> for Competition {
    /// The competition as everybody may see it.
    fn from(value: PrivateCompetition) -> (r: Self)
        ensures
            value.is_published_as(r),
    {
        let mut persons: Vec<Person> = Vec::new();
        let ghost private = value.persons@;
        for person in it: value.persons
            invariant
                it.seq() == private,
                persons@.len() == it.index(),
                forall|i: int|
                    0 <= i < it.index() ==> persons@[i] == (#[trigger] private[i]).public(),
        {
            persons.push(Person::from(person));
        }
        Self {
            id: value.id,
            name: value.name,
            short_name: value.short_name,
            series: value.series,
            persons,
            events: value.events,
            schedule: value.schedule,
            registration_info: value.registration_info,
            competitor_limit: value.competitor_limit,
            extensions: value.extensions,
        }
    }
}

impl Role {
    /// Whether this is the role of a delegate, in training or not.
    pub fn is_delegate(&self) -> (r: bool)
        ensures
            r == (*self is Delegate || *self is TraineeDelegate),
    {
        match self {
            Self::Delegate | Self::TraineeDelegate => true,
            _ => false,
        }
    }
}

impl RoundFormat {
    /// The number of attempts that a round of this format has.
    pub open spec fn solve_count(self) -> nat {
        match self {
            RoundFormat::BestOf1 => 1,
            RoundFormat::BestOf2 => 2,
            RoundFormat::BestOf3 => 3,
            RoundFormat::AverageOf5 => 5,
            RoundFormat::MeanOf3 => 3,
        }
    }

    /// The number of attempts that a round of this format has.
    pub fn expected_solve_count(&self) -> (r: u8)
        ensures
            r == self.solve_count(),
            1 <= r <= 5,
    {
        match self {
            RoundFormat::BestOf1 => 1,
            RoundFormat::BestOf2 => 2,
            RoundFormat::BestOf3 => 3,
            RoundFormat::AverageOf5 => 5,
            RoundFormat::MeanOf3 => 3,
        }
    }

    /// The result that ranks a round of this format: the average where the
    /// format has one, else the best single attempt.
    pub fn sort_by(&self) -> (r: ResultType)
        ensures
            r is Average <==> (*self is AverageOf5 || *self is MeanOf3),
    {
        match self {
            RoundFormat::BestOf1 => ResultType::Single,
            RoundFormat::BestOf2 => ResultType::Single,
            RoundFormat::BestOf3 => ResultType::Single,
            RoundFormat::AverageOf5 => ResultType::Average,
            RoundFormat::MeanOf3 => ResultType::Average,
        }
    }
}

impl Clone for Activity {
    /// A copy of this activity, with a copy of each slot that it is split
    /// into. What a copy of an activity code or of an extension holds is
    /// for their own copying to say.
    fn clone(&self) -> (r: Self)
        ensures
            r.id == self.id,
            r.name == self.name,
            r.start_time == self.start_time,
            r.end_time == self.end_time,
            r.scramble_set_id == self.scramble_set_id,
            r.child_activities@.len() == self.child_activities@.len(),
        decreases self,
    {
        let mut children: Vec<Activity> = Vec::new();
        let mut i: usize = 0;
        while i < self.child_activities.len()
            invariant
                i <= self.child_activities.len(),
                children@.len() == i,
            decreases self.child_activities.len() - i,
        {
            children.push(self.child_activities[i].clone());
            i += 1;
        }
        Activity {
            id: self.id,
            name: self.name.clone(),
            activity_code: self.activity_code.clone(),
            start_time: self.start_time,
            end_time: self.end_time,
            child_activities: children,
            scramble_set_id: self.scramble_set_id,
            extensions: self.extensions.clone(),
        }
    }
}

impl Activity {
    /// The span from the start of this activity to its end, which is
    /// negative if the end is the earlier of the two. How long the span
    /// is, is for the calendar library to say.
    pub fn get_duration(&self) -> (r: chrono::TimeDelta)
        ensures
            r == span_between(self.end_time, self.start_time),
    {
        duration_between(&self.end_time, &self.start_time)
    }
}

} // verus!
