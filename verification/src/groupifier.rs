//! The settings that the grouping tool keeps in a document.

use vstd::prelude::*;
use crate::activity_code::GroupIdType;

verus! {

/// The settings of an activity, as an extension of the document. Its
/// identifier is always `groupifier.ActivityConfig`.
#[derive(Debug, Clone, PartialEq)]
pub struct ActivityConfigExtension {
    pub spec_url: String,
    pub data: ActivityConfig,
}

/// The settings of an activity.
#[derive(Debug, Clone, PartialEq)]
pub struct ActivityConfig {
    /// The share of the stations to use, as the bits of a 32-bit binary
    /// floating-point number.
    pub capacity_bits: u32,
    pub groups: GroupIdType,
    pub scramblers: u32,
    pub runners: u32,
    pub assign_judges: bool,
    pub featured_competitors_wca_user_ids: Vec<u64>,
}

/// The settings of a competition, as an extension of the document. Its
/// identifier is always `groupifier.CompetitionConfig`.
#[derive(Debug, Clone, PartialEq)]
pub struct CompetitionConfigExtension {
    pub spec_url: String,
    pub data: CompetitionConfig,
}

/// The settings of a competition.
#[derive(Debug, Clone, PartialEq)]
pub struct CompetitionConfig {
    pub local_names_first: bool,
    pub scorecards_background_url: Option<String>,
    pub competitors_sorting_rule: CompetitorsSortingRule,
    pub no_tasks_for_newcomers: bool,
    pub tasks_for_own_events_only: bool,
    pub no_running_for_foreigners: Option<bool>,
    pub print_stations: Option<bool>,
    pub scorecard_paper_size: Option<ScorecardPaperSize>,
    pub scorecard_order: Option<ScorecardOrder>,
}

#[derive(Debug, Clone, PartialEq)]
pub enum CompetitorsSortingRule {
    Ranks,
    Balanced,
    Symmetric,
    NameOptimised,
}

#[derive(Debug, Clone, PartialEq)]
pub enum ScorecardPaperSize {
    A4,
    A6,
    Letter,
}

#[derive(Debug, Clone, PartialEq)]
pub enum ScorecardOrder {
    Natural,
    Stacked,
}

/// The settings of a room, as an extension of the document. Its
/// identifier is always `groupifier.RoomConfig`.
#[derive(Debug, Clone, PartialEq)]
pub struct RoomConfigExtension {
    pub spec_url: String,
    pub data: RoomConfig,
}

/// The settings of a room.
#[derive(Debug, Clone, PartialEq)]
pub struct RoomConfig {
    pub stations: u32,
}

impl ActivityConfigExtension {
    /// The identifier of this extension.
    pub fn id(&self) -> (r: &'static str)
        ensures
            r@ == "groupifier.ActivityConfig"@,
    {
        "groupifier.ActivityConfig"
    }
}

impl CompetitionConfigExtension {
    /// The identifier of this extension.
    pub fn id(&self) -> (r: &'static str)
        ensures
            r@ == "groupifier.CompetitionConfig"@,
    {
        "groupifier.CompetitionConfig"
    }
}

impl RoomConfigExtension {
    /// The identifier of this extension.
    pub fn id(&self) -> (r: &'static str)
        ensures
            r@ == "groupifier.RoomConfig"@,
    {
        "groupifier.RoomConfig"
    }
}

} // verus!
