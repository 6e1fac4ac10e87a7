//! Assignment codes: what a person does during an activity.
//!
//! `competitor` is the one code of competing. Every other code is
//! `staff-` followed by a role, known or not.

use vstd::prelude::*;
use vstd::string::*;
use crate::text::{chars_of, result_view, spells, starts_with, text_after};

verus! {

/// A role of the staff.
#[derive(Clone, Debug, PartialEq, Eq, Hash)]
pub enum StaffAssignment {
    Judge,
    Scrambler,
    Runner,
    DataEntry,
    Announcer,
    /// A role that this library has no name for, as it was written.
    Other(String),
}

/// What a person does during an activity.
#[derive(Clone, Debug, PartialEq, Eq, Hash)]
pub enum AssignmentCode {
    Competitor,
    Staff(StaffAssignment),
}

/// A `StaffAssignment`, with its text as a character sequence.
pub enum StaffAssignmentView {
    Judge,
    Scrambler,
    Runner,
    DataEntry,
    Announcer,
    Other(Seq<char>),
}

/// An `AssignmentCode`, with its text as a character sequence.
pub enum AssignmentCodeView {
    Competitor,
    Staff(StaffAssignmentView),
}

impl View for StaffAssignment {
    type V = StaffAssignmentView;

    open spec fn view(&self) -> StaffAssignmentView {
        match self {
            StaffAssignment::Judge => StaffAssignmentView::Judge,
            StaffAssignment::Scrambler => StaffAssignmentView::Scrambler,
            StaffAssignment::Runner => StaffAssignmentView::Runner,
            StaffAssignment::DataEntry => StaffAssignmentView::DataEntry,
            StaffAssignment::Announcer => StaffAssignmentView::Announcer,
            StaffAssignment::Other(x) => StaffAssignmentView::Other(x@),
        }
    }
}

impl View for AssignmentCode {
    type V = AssignmentCodeView;

    open spec fn view(&self) -> AssignmentCodeView {
        match self {
            AssignmentCode::Competitor => AssignmentCodeView::Competitor,
            AssignmentCode::Staff(x) => AssignmentCodeView::Staff(x@),
        }
    }
}

/// The text is neither `competitor` nor `staff-` with a role behind it.
#[derive(Clone, Copy, Debug, PartialEq, Eq, Hash, Structural)]
pub struct InvalidAssignment;

impl InvalidAssignment {
    /// The message of this error.
    pub open spec fn message(self) -> Seq<char> {
        "invalid staff assignment"@
    }

    /// Renders the message of this error.
    pub fn to_string(&self) -> (r: String)
        ensures
            r@ == self.message(),
    {
        String::from_str("invalid staff assignment")
    }
}

/// The role that `s` spells: one of the five known roles, or `s` itself.
pub open spec fn parse_staff_assignment(s: Seq<char>) -> StaffAssignmentView {
    if s == "judge"@ {
        StaffAssignmentView::Judge
    } else if s == "scrambler"@ {
        StaffAssignmentView::Scrambler
    } else if s == "runner"@ {
        StaffAssignmentView::Runner
    } else if s == "dataentry"@ {
        StaffAssignmentView::DataEntry
    } else if s == "announcer"@ {
        StaffAssignmentView::Announcer
    } else {
        StaffAssignmentView::Other(s)
    }
}

/// How a role is written.
pub open spec fn format_staff_assignment(x: StaffAssignmentView) -> Seq<char> {
    match x {
        StaffAssignmentView::Judge => "judge"@,
        StaffAssignmentView::Scrambler => "scrambler"@,
        StaffAssignmentView::Runner => "runner"@,
        StaffAssignmentView::DataEntry => "dataentry"@,
        StaffAssignmentView::Announcer => "announcer"@,
        StaffAssignmentView::Other(s) => s,
    }
}

/// The assignment code that `s` spells.
pub open spec fn parse_assignment_code(s: Seq<char>) -> Result<
    AssignmentCodeView,
    InvalidAssignment,
> {
    if s == "competitor"@ {
        Ok(AssignmentCodeView::Competitor)
    } else if "staff-"@.is_prefix_of(s) && s.len() > 6 {
        Ok(AssignmentCodeView::Staff(parse_staff_assignment(s.skip(6))))
    } else {
        Err(InvalidAssignment)
    }
}

/// How an assignment code is written.
pub open spec fn format_assignment_code(x: AssignmentCodeView) -> Seq<char> {
    match x {
        AssignmentCodeView::Competitor => "competitor"@,
        AssignmentCodeView::Staff(role) => "staff-"@ + format_staff_assignment(role),
    }
}

impl StaffAssignmentView {
    /// Whether this role is read back as itself once written: a role
    /// without a name here is neither empty nor the text of a known role.
    pub open spec fn is_canonical(self) -> bool {
        match self {
            StaffAssignmentView::Other(s) => s.len() > 0 && parse_staff_assignment(s)
                == StaffAssignmentView::Other(s),
            _ => true,
        }
    }
}

impl AssignmentCodeView {
    /// Whether this code is read back as itself once written.
    pub open spec fn is_canonical(self) -> bool {
        match self {
            AssignmentCodeView::Competitor => true,
            AssignmentCodeView::Staff(role) => role.is_canonical(),
        }
    }
}

impl StaffAssignment {
    /// Whether this is a role at the solving stations: judge, scrambler or runner.
    pub fn is_competitor_staffing_role(&self) -> (r: bool)
        ensures
            r == (self@ is Judge || self@ is Scrambler || self@ is Runner),
    {
        match self {
            StaffAssignment::Judge => true,
            StaffAssignment::Scrambler => true,
            StaffAssignment::Runner => true,
            _ => false,
        }
    }

    /// Reads a role. Every text is one.
    pub fn from_str(s: &str) -> (r: Result<Self, InvalidAssignment>)
        ensures
            result_view(r) == Ok::<StaffAssignmentView, InvalidAssignment>(
                parse_staff_assignment(s@),
            ),
    {
        let chars = chars_of(s);
        if spells(&chars, "judge") {
            Ok(Self::Judge)
        } else if spells(&chars, "scrambler") {
            Ok(Self::Scrambler)
        } else if spells(&chars, "runner") {
            Ok(Self::Runner)
        } else if spells(&chars, "dataentry") {
            Ok(Self::DataEntry)
        } else if spells(&chars, "announcer") {
            Ok(Self::Announcer)
        } else {
            Ok(Self::Other(String::from_str(s)))
        }
    }

    /// Writes this role.
    pub fn to_string(&self) -> (r: String)
        ensures
            r@ == format_staff_assignment(self@),
    {
        match self {
            Self::Judge => String::from_str("judge"),
            Self::Scrambler => String::from_str("scrambler"),
            Self::Runner => String::from_str("runner"),
            Self::DataEntry => String::from_str("dataentry"),
            Self::Announcer => String::from_str("announcer"),
            Self::Other(x) => x.clone(),
        }
    }
}

impl AssignmentCode {
    /// Reads an assignment code.
    pub fn from_str(s: &str) -> (r: Result<Self, InvalidAssignment>)
        ensures
            result_view(r) == parse_assignment_code(s@),
    {
        proof {
            reveal_strlit("staff-");
        }
        let chars = chars_of(s);
        if spells(&chars, "competitor") {
            Ok(Self::Competitor)
        } else if starts_with(s, "staff-") && chars.len() > 6 {
            match StaffAssignment::from_str(text_after(s, 6)) {
                Ok(role) => Ok(Self::Staff(role)),
                Err(e) => Err(e),
            }
        } else {
            Err(InvalidAssignment)
        }
    }

    /// Writes this assignment code.
    pub fn to_string(&self) -> (r: String)
        ensures
            r@ == format_assignment_code(self@),
    {
        match self {
            Self::Competitor => String::from_str("competitor"),
            Self::Staff(x) => {
                let role = x.to_string();
                String::from_str("staff-").concat(role.as_str())
            },
        }
    }
}

impl std::str::FromStr for StaffAssignment {
    type Err = InvalidAssignment;

    /// Reads a role. Every text is one.
    fn from_str(s: &str) -> (r: Result<Self, Self::Err>)
        ensures
            result_view(r) == Ok::<StaffAssignmentView, InvalidAssignment>(
                parse_staff_assignment(s@),
            ),
    {
        StaffAssignment::from_str(s)
    }
}

impl std::str::FromStr for AssignmentCode {
    type Err = InvalidAssignment;

    /// Reads an assignment code.
    fn from_str(s: &str) -> (r: Result<Self, Self::Err>)
        ensures
            result_view(r) == parse_assignment_code(s@),
    {
        AssignmentCode::from_str(s)
    }
}

/// What the texts of the grammar spell.
proof fn reveal_roles()
    ensures
        "judge"@.len() == 5,
        "scrambler"@.len() == 9,
        "runner"@.len() == 6,
        "dataentry"@.len() == 9,
        "announcer"@.len() == 9,
        "judge"@[0] == 'j',
        "scrambler"@[0] == 's',
        "runner"@[0] == 'r',
        "dataentry"@[0] == 'd',
        "announcer"@[0] == 'a',
        "competitor"@.len() == 10 && "competitor"@[0] == 'c',
        "staff-"@ == seq!['s', 't', 'a', 'f', 'f', '-'],
{
    reveal_strlit("judge");
    reveal_strlit("scrambler");
    reveal_strlit("runner");
    reveal_strlit("dataentry");
    reveal_strlit("announcer");
    reveal_strlit("competitor");
    reveal_strlit("staff-");
    assert("staff-"@ =~= seq!['s', 't', 'a', 'f', 'f', '-']);
}

/// A canonical role is read back as itself once it is written.
pub proof fn lemma_staff_assignment_round_trip(x: StaffAssignmentView)
    requires
        x.is_canonical(),
    ensures
        parse_staff_assignment(format_staff_assignment(x)) == x,
{
    reveal_roles();
}

/// A canonical assignment code is read back as itself once it is written.
pub proof fn lemma_assignment_code_round_trip(x: AssignmentCodeView)
    requires
        x.is_canonical(),
    ensures
        parse_assignment_code(format_assignment_code(x)) == Ok::<
            AssignmentCodeView,
            InvalidAssignment,
        >(x),
{
    reveal_roles();
    match x {
        AssignmentCodeView::Competitor => {},
        AssignmentCodeView::Staff(role) => {
            let text = format_assignment_code(x);
            let written = format_staff_assignment(role);
            assert(written.len() > 0);
            assert(text.subrange(0, 6) =~= "staff-"@);
            assert(text.skip(6) =~= written);
            assert(text[0] == 's');
            lemma_staff_assignment_round_trip(role);
        },
    }
}

} // verus!
