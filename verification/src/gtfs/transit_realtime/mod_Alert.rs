//! What belongs to an alert.

use vstd::prelude::*;
use vstd::std_specs::convert::FromSpecImpl;

verus! {

/// Why an alert was raised.
#[allow(non_camel_case_types)]
#[derive(Debug, Clone, Copy, PartialEq, Eq, Structural)]
pub enum Cause {
    UNKNOWN_CAUSE,
    OTHER_CAUSE,
    TECHNICAL_PROBLEM,
    STRIKE,
    DEMONSTRATION,
    ACCIDENT,
    HOLIDAY,
    WEATHER,
    MAINTENANCE,
    CONSTRUCTION,
    POLICE_ACTIVITY,
    MEDICAL_EMERGENCY,
}

impl Cause {
    /// The number that stands for the value in the feed.
    pub open spec fn number(self) -> int {
        match self {
            Cause::UNKNOWN_CAUSE => 1,
            Cause::OTHER_CAUSE => 2,
            Cause::TECHNICAL_PROBLEM => 3,
            Cause::STRIKE => 4,
            Cause::DEMONSTRATION => 5,
            Cause::ACCIDENT => 6,
            Cause::HOLIDAY => 7,
            Cause::WEATHER => 8,
            Cause::MAINTENANCE => 9,
            Cause::CONSTRUCTION => 10,
            Cause::POLICE_ACTIVITY => 11,
            Cause::MEDICAL_EMERGENCY => 12,
        }
    }

    /// The value that a number stands for; the default for a number that
    /// stands for none.
    pub open spec fn of_number(i: int) -> Self {
        if i == 1 {
            Cause::UNKNOWN_CAUSE
        } else if i == 2 {
            Cause::OTHER_CAUSE
        } else if i == 3 {
            Cause::TECHNICAL_PROBLEM
        } else if i == 4 {
            Cause::STRIKE
        } else if i == 5 {
            Cause::DEMONSTRATION
        } else if i == 6 {
            Cause::ACCIDENT
        } else if i == 7 {
            Cause::HOLIDAY
        } else if i == 8 {
            Cause::WEATHER
        } else if i == 9 {
            Cause::MAINTENANCE
        } else if i == 10 {
            Cause::CONSTRUCTION
        } else if i == 11 {
            Cause::POLICE_ACTIVITY
        } else if i == 12 {
            Cause::MEDICAL_EMERGENCY
        } else {
            Cause::UNKNOWN_CAUSE
        }
    }

    /// The value that a name stands for; the default for a name that stands
    /// for none.
    pub open spec fn of_name(s: Seq<char>) -> Self {
        if s == "UNKNOWN_CAUSE"@ {
            Cause::UNKNOWN_CAUSE
        } else if s == "OTHER_CAUSE"@ {
            Cause::OTHER_CAUSE
        } else if s == "TECHNICAL_PROBLEM"@ {
            Cause::TECHNICAL_PROBLEM
        } else if s == "STRIKE"@ {
            Cause::STRIKE
        } else if s == "DEMONSTRATION"@ {
            Cause::DEMONSTRATION
        } else if s == "ACCIDENT"@ {
            Cause::ACCIDENT
        } else if s == "HOLIDAY"@ {
            Cause::HOLIDAY
        } else if s == "WEATHER"@ {
            Cause::WEATHER
        } else if s == "MAINTENANCE"@ {
            Cause::MAINTENANCE
        } else if s == "CONSTRUCTION"@ {
            Cause::CONSTRUCTION
        } else if s == "POLICE_ACTIVITY"@ {
            Cause::POLICE_ACTIVITY
        } else if s == "MEDICAL_EMERGENCY"@ {
            Cause::MEDICAL_EMERGENCY
        } else {
            Cause::UNKNOWN_CAUSE
        }
    }

    /// The number that stands for the value in the feed.
    pub fn to_i32(self) -> (i: i32)
        ensures
            i == self.number(),
    {
        match self {
            Cause::UNKNOWN_CAUSE => 1,
            Cause::OTHER_CAUSE => 2,
            Cause::TECHNICAL_PROBLEM => 3,
            Cause::STRIKE => 4,
            Cause::DEMONSTRATION => 5,
            Cause::ACCIDENT => 6,
            Cause::HOLIDAY => 7,
            Cause::WEATHER => 8,
            Cause::MAINTENANCE => 9,
            Cause::CONSTRUCTION => 10,
            Cause::POLICE_ACTIVITY => 11,
            Cause::MEDICAL_EMERGENCY => 12,
        }
    }
}

impl Default for Cause {
    fn default() -> (r: Self)
        ensures
            r == Cause::UNKNOWN_CAUSE,
    {
        Cause::UNKNOWN_CAUSE
    }
}

impl From<i32> for Cause {
    fn from(i: i32) -> (r: Self) {
        if i == 1 {
            Cause::UNKNOWN_CAUSE
        } else if i == 2 {
            Cause::OTHER_CAUSE
        } else if i == 3 {
            Cause::TECHNICAL_PROBLEM
        } else if i == 4 {
            Cause::STRIKE
        } else if i == 5 {
            Cause::DEMONSTRATION
        } else if i == 6 {
            Cause::ACCIDENT
        } else if i == 7 {
            Cause::HOLIDAY
        } else if i == 8 {
            Cause::WEATHER
        } else if i == 9 {
            Cause::MAINTENANCE
        } else if i == 10 {
            Cause::CONSTRUCTION
        } else if i == 11 {
            Cause::POLICE_ACTIVITY
        } else if i == 12 {
            Cause::MEDICAL_EMERGENCY
        } else {
            Cause::UNKNOWN_CAUSE
        }
    }
}

impl FromSpecImpl<i32> for Cause {
    open spec fn obeys_from_spec() -> bool {
        true
    }

    open spec fn from_spec(i: i32) -> Self {
        Cause::of_number(i as int)
    }
}

impl<'a> From<&'a str> for Cause {
    fn from(s: &'a str) -> (r: Self) {
        let text = s.to_owned();
        if text == "UNKNOWN_CAUSE".to_owned() {
            Cause::UNKNOWN_CAUSE
        } else if text == "OTHER_CAUSE".to_owned() {
            Cause::OTHER_CAUSE
        } else if text == "TECHNICAL_PROBLEM".to_owned() {
            Cause::TECHNICAL_PROBLEM
        } else if text == "STRIKE".to_owned() {
            Cause::STRIKE
        } else if text == "DEMONSTRATION".to_owned() {
            Cause::DEMONSTRATION
        } else if text == "ACCIDENT".to_owned() {
            Cause::ACCIDENT
        } else if text == "HOLIDAY".to_owned() {
            Cause::HOLIDAY
        } else if text == "WEATHER".to_owned() {
            Cause::WEATHER
        } else if text == "MAINTENANCE".to_owned() {
            Cause::MAINTENANCE
        } else if text == "CONSTRUCTION".to_owned() {
            Cause::CONSTRUCTION
        } else if text == "POLICE_ACTIVITY".to_owned() {
            Cause::POLICE_ACTIVITY
        } else if text == "MEDICAL_EMERGENCY".to_owned() {
            Cause::MEDICAL_EMERGENCY
        } else {
            Cause::UNKNOWN_CAUSE
        }
    }
}

impl<'a> FromSpecImpl<&'a str> for Cause {
    open spec fn obeys_from_spec() -> bool {
        true
    }

    open spec fn from_spec(s: &'a str) -> Self {
        Cause::of_name(s@)
    }
}

/// What an alert means for the service.
#[allow(non_camel_case_types)]
#[derive(Debug, Clone, Copy, PartialEq, Eq, Structural)]
pub enum Effect {
    NO_SERVICE,
    REDUCED_SERVICE,
    SIGNIFICANT_DELAYS,
    DETOUR,
    ADDITIONAL_SERVICE,
    MODIFIED_SERVICE,
    OTHER_EFFECT,
    UNKNOWN_EFFECT,
    STOP_MOVED,
}

impl Effect {
    /// The number that stands for the value in the feed.
    pub open spec fn number(self) -> int {
        match self {
            Effect::NO_SERVICE => 1,
            Effect::REDUCED_SERVICE => 2,
            Effect::SIGNIFICANT_DELAYS => 3,
            Effect::DETOUR => 4,
            Effect::ADDITIONAL_SERVICE => 5,
            Effect::MODIFIED_SERVICE => 6,
            Effect::OTHER_EFFECT => 7,
            Effect::UNKNOWN_EFFECT => 8,
            Effect::STOP_MOVED => 9,
        }
    }

    /// The value that a number stands for; the default for a number that
    /// stands for none.
    pub open spec fn of_number(i: int) -> Self {
        if i == 1 {
            Effect::NO_SERVICE
        } else if i == 2 {
            Effect::REDUCED_SERVICE
        } else if i == 3 {
            Effect::SIGNIFICANT_DELAYS
        } else if i == 4 {
            Effect::DETOUR
        } else if i == 5 {
            Effect::ADDITIONAL_SERVICE
        } else if i == 6 {
            Effect::MODIFIED_SERVICE
        } else if i == 7 {
            Effect::OTHER_EFFECT
        } else if i == 8 {
            Effect::UNKNOWN_EFFECT
        } else if i == 9 {
            Effect::STOP_MOVED
        } else {
            Effect::NO_SERVICE
        }
    }

    /// The value that a name stands for; the default for a name that stands
    /// for none.
    pub open spec fn of_name(s: Seq<char>) -> Self {
        if s == "NO_SERVICE"@ {
            Effect::NO_SERVICE
        } else if s == "REDUCED_SERVICE"@ {
            Effect::REDUCED_SERVICE
        } else if s == "SIGNIFICANT_DELAYS"@ {
            Effect::SIGNIFICANT_DELAYS
        } else if s == "DETOUR"@ {
            Effect::DETOUR
        } else if s == "ADDITIONAL_SERVICE"@ {
            Effect::ADDITIONAL_SERVICE
        } else if s == "MODIFIED_SERVICE"@ {
            Effect::MODIFIED_SERVICE
        } else if s == "OTHER_EFFECT"@ {
            Effect::OTHER_EFFECT
        } else if s == "UNKNOWN_EFFECT"@ {
            Effect::UNKNOWN_EFFECT
        } else if s == "STOP_MOVED"@ {
            Effect::STOP_MOVED
        } else {
            Effect::NO_SERVICE
        }
    }

    /// The number that stands for the value in the feed.
    pub fn to_i32(self) -> (i: i32)
        ensures
            i == self.number(),
    {
        match self {
            Effect::NO_SERVICE => 1,
            Effect::REDUCED_SERVICE => 2,
            Effect::SIGNIFICANT_DELAYS => 3,
            Effect::DETOUR => 4,
            Effect::ADDITIONAL_SERVICE => 5,
            Effect::MODIFIED_SERVICE => 6,
            Effect::OTHER_EFFECT => 7,
            Effect::UNKNOWN_EFFECT => 8,
            Effect::STOP_MOVED => 9,
        }
    }
}

impl Default for Effect {
    fn default() -> (r: Self)
        ensures
            r == Effect::NO_SERVICE,
    {
        Effect::NO_SERVICE
    }
}

impl From<i32> for Effect {
    fn from(i: i32) -> (r: Self) {
        if i == 1 {
            Effect::NO_SERVICE
        } else if i == 2 {
            Effect::REDUCED_SERVICE
        } else if i == 3 {
            Effect::SIGNIFICANT_DELAYS
        } else if i == 4 {
            Effect::DETOUR
        } else if i == 5 {
            Effect::ADDITIONAL_SERVICE
        } else if i == 6 {
            Effect::MODIFIED_SERVICE
        } else if i == 7 {
            Effect::OTHER_EFFECT
        } else if i == 8 {
            Effect::UNKNOWN_EFFECT
        } else if i == 9 {
            Effect::STOP_MOVED
        } else {
            Effect::NO_SERVICE
        }
    }
}

impl FromSpecImpl<i32> for Effect {
    open spec fn obeys_from_spec() -> bool {
        true
    }

    open spec fn from_spec(i: i32) -> Self {
        Effect::of_number(i as int)
    }
}

impl<'a> From<&'a str> for Effect {
    fn from(s: &'a str) -> (r: Self) {
        let text = s.to_owned();
        if text == "NO_SERVICE".to_owned() {
            Effect::NO_SERVICE
        } else if text == "REDUCED_SERVICE".to_owned() {
            Effect::REDUCED_SERVICE
        } else if text == "SIGNIFICANT_DELAYS".to_owned() {
            Effect::SIGNIFICANT_DELAYS
        } else if text == "DETOUR".to_owned() {
            Effect::DETOUR
        } else if text == "ADDITIONAL_SERVICE".to_owned() {
            Effect::ADDITIONAL_SERVICE
        } else if text == "MODIFIED_SERVICE".to_owned() {
            Effect::MODIFIED_SERVICE
        } else if text == "OTHER_EFFECT".to_owned() {
            Effect::OTHER_EFFECT
        } else if text == "UNKNOWN_EFFECT".to_owned() {
            Effect::UNKNOWN_EFFECT
        } else if text == "STOP_MOVED".to_owned() {
            Effect::STOP_MOVED
        } else {
            Effect::NO_SERVICE
        }
    }
}

impl<'a> FromSpecImpl<&'a str> for Effect {
    open spec fn obeys_from_spec() -> bool {
        true
    }

    open spec fn from_spec(s: &'a str) -> Self {
        Effect::of_name(s@)
    }
}
} // verus!
