//! The settings that the delegates' dashboard keeps in a document.

use vstd::prelude::*;

verus! {

/// The number of groups of a round, as an extension of the document.
///
/// The tool writes `undefined.groups` for the identifier, so the
/// extension is known by its identifier and the address of its schema
/// together.
#[derive(Debug, Clone, PartialEq)]
pub struct GroupsExtension {
    pub data: GroupsConfig,
}

/// The number of groups of a round.
#[derive(Debug, Clone, PartialEq)]
pub struct GroupsConfig {
    pub groups: u32,
    pub spread_groups_across_all_stages: Option<bool>,
}

impl GroupsExtension {
    /// The identifier of this extension.
    pub fn id(&self) -> (r: &'static str)
        ensures
            r@ == "undefined.groups"@,
    {
        "undefined.groups"
    }

    /// The address of the schema of this extension.
    pub fn spec_url(&self) -> (r: &'static str)
        ensures
            r@
                == "https://github.com/coder13/delegateDashboard/blob/main/public/wcif-extensions/groups.json"@,
    {
        "https://github.com/coder13/delegateDashboard/blob/main/public/wcif-extensions/groups.json"
    }
}

} // verus!
