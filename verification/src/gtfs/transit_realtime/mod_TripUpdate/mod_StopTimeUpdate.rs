//! What belongs to the update of a stop time.

use vstd::prelude::*;
use vstd::std_specs::convert::FromSpecImpl;

verus! {

/// How a stop time relates to the schedule.
#[allow(non_camel_case_types)]
#[derive(Debug, Clone, Copy, PartialEq, Eq, Structural)]
pub enum ScheduleRelationship {
    SCHEDULED,
    SKIPPED,
    NO_DATA,
}

impl ScheduleRelationship {
    /// The number that stands for the value in the feed.
    pub open spec fn number(self) -> int {
        match self {
            ScheduleRelationship::SCHEDULED => 0,
            ScheduleRelationship::SKIPPED => 1,
            ScheduleRelationship::NO_DATA => 2,
        }
    }

    /// The value that a number stands for; the default for a number that
    /// stands for none.
    pub open spec fn of_number(i: int) -> Self {
        if i == 0 {
            ScheduleRelationship::SCHEDULED
        } else if i == 1 {
            ScheduleRelationship::SKIPPED
        } else if i == 2 {
            ScheduleRelationship::NO_DATA
        } else {
            ScheduleRelationship::SCHEDULED
        }
    }

    /// The value that a name stands for; the default for a name that stands
    /// for none.
    pub open spec fn of_name(s: Seq<char>) -> Self {
        if s == "SCHEDULED"@ {
            ScheduleRelationship::SCHEDULED
        } else if s == "SKIPPED"@ {
            ScheduleRelationship::SKIPPED
        } else if s == "NO_DATA"@ {
            ScheduleRelationship::NO_DATA
        } else {
            ScheduleRelationship::SCHEDULED
        }
    }

    /// The number that stands for the value in the feed.
    pub fn to_i32(self) -> (i: i32)
        ensures
            i == self.number(),
    {
        match self {
            ScheduleRelationship::SCHEDULED => 0,
            ScheduleRelationship::SKIPPED => 1,
            ScheduleRelationship::NO_DATA => 2,
        }
    }
}

impl Default for ScheduleRelationship {
    fn default() -> (r: Self)
        ensures
            r == ScheduleRelationship::SCHEDULED,
    {
        ScheduleRelationship::SCHEDULED
    }
}

impl From<i32> for ScheduleRelationship {
    fn from(i: i32) -> (r: Self) {
        if i == 0 {
            ScheduleRelationship::SCHEDULED
        } else if i == 1 {
            ScheduleRelationship::SKIPPED
        } else if i == 2 {
            ScheduleRelationship::NO_DATA
        } else {
            ScheduleRelationship::SCHEDULED
        }
    }
}

impl FromSpecImpl<i32> for ScheduleRelationship {
    open spec fn obeys_from_spec() -> bool {
        true
    }

    open spec fn from_spec(i: i32) -> Self {
        ScheduleRelationship::of_number(i as int)
    }
}

impl<'a> From<&'a str> for ScheduleRelationship {
    fn from(s: &'a str) -> (r: Self) {
        let text = s.to_owned();
        if text == "SCHEDULED".to_owned() {
            ScheduleRelationship::SCHEDULED
        } else if text == "SKIPPED".to_owned() {
            ScheduleRelationship::SKIPPED
        } else if text == "NO_DATA".to_owned() {
            ScheduleRelationship::NO_DATA
        } else {
            ScheduleRelationship::SCHEDULED
        }
    }
}

impl<'a> FromSpecImpl<&'a str> for ScheduleRelationship {
    open spec fn obeys_from_spec() -> bool {
        true
    }

    open spec fn from_spec(s: &'a str) -> Self {
        ScheduleRelationship::of_name(s@)
    }
}
} // verus!
