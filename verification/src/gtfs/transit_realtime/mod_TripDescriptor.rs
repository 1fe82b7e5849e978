//! What belongs to the descriptor of a trip.

use vstd::prelude::*;
use vstd::std_specs::convert::FromSpecImpl;

verus! {

/// How a trip relates to the schedule.
#[allow(non_camel_case_types)]
#[derive(Debug, Clone, Copy, PartialEq, Eq, Structural)]
pub enum ScheduleRelationship {
    SCHEDULED,
    ADDED,
    UNSCHEDULED,
    CANCELED,
}

impl ScheduleRelationship {
    /// The number that stands for the value in the feed.
    pub open spec fn number(self) -> int {
        match self {
            ScheduleRelationship::SCHEDULED => 0,
            ScheduleRelationship::ADDED => 1,
            ScheduleRelationship::UNSCHEDULED => 2,
            ScheduleRelationship::CANCELED => 3,
        }
    }

    /// The value that a number stands for; the default for a number that
    /// stands for none.
    pub open spec fn of_number(i: int) -> Self {
        if i == 0 {
            ScheduleRelationship::SCHEDULED
        } else if i == 1 {
            ScheduleRelationship::ADDED
        } else if i == 2 {
            ScheduleRelationship::UNSCHEDULED
        } else if i == 3 {
            ScheduleRelationship::CANCELED
        } else {
            ScheduleRelationship::SCHEDULED
        }
    }

    /// The value that a name stands for; the default for a name that stands
    /// for none.
    pub open spec fn of_name(s: Seq<char>) -> Self {
        if s == "SCHEDULED"@ {
            ScheduleRelationship::SCHEDULED
        } else if s == "ADDED"@ {
            ScheduleRelationship::ADDED
        } else if s == "UNSCHEDULED"@ {
            ScheduleRelationship::UNSCHEDULED
        } else if s == "CANCELED"@ {
            ScheduleRelationship::CANCELED
        } else {
            ScheduleRelationship::SCHEDULED
        }
    }

    /// The number that stands for the value in the feed.
    pub fn to_i32(self) -> (i: i32)
        ensures
            i == self.number(),
    {
        match self {
            ScheduleRelationship::SCHEDULED => 0,
            ScheduleRelationship::ADDED => 1,
            ScheduleRelationship::UNSCHEDULED => 2,
            ScheduleRelationship::CANCELED => 3,
        }
    }
}

impl Default for ScheduleRelationship {
    fn default() -> (r: Self)
        ensures
            r == ScheduleRelationship::SCHEDULED,
    {
        ScheduleRelationship::SCHEDULED
    }
}

impl From<i32> for ScheduleRelationship {
    fn from(i: i32) -> (r: Self) {
        if i == 0 {
            ScheduleRelationship::SCHEDULED
        } else if i == 1 {
            ScheduleRelationship::ADDED
        } else if i == 2 {
            ScheduleRelationship::UNSCHEDULED
        } else if i == 3 {
            ScheduleRelationship::CANCELED
        } else {
            ScheduleRelationship::SCHEDULED
        }
    }
}

impl FromSpecImpl<i32> for ScheduleRelationship {
    open spec fn obeys_from_spec() -> bool {
        true
    }

    open spec fn from_spec(i: i32) -> Self {
        ScheduleRelationship::of_number(i as int)
    }
}

impl<'a> From<&'a str> for ScheduleRelationship {
    fn from(s: &'a str) -> (r: Self) {
        let text = s.to_owned();
        if text == "SCHEDULED".to_owned() {
            ScheduleRelationship::SCHEDULED
        } else if text == "ADDED".to_owned() {
            ScheduleRelationship::ADDED
        } else if text == "UNSCHEDULED".to_owned() {
            ScheduleRelationship::UNSCHEDULED
        } else if text == "CANCELED".to_owned() {
            ScheduleRelationship::CANCELED
        } else {
            ScheduleRelationship::SCHEDULED
        }
    }
}

impl<'a> FromSpecImpl<&'a str> for ScheduleRelationship {
    open spec fn obeys_from_spec() -> bool {
        true
    }

    open spec fn from_spec(s: &'a str) -> Self {
        ScheduleRelationship::of_name(s@)
    }
}
} // verus!
