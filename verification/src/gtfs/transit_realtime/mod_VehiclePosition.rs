//! What belongs to the position of a vehicle.

use vstd::prelude::*;
use vstd::std_specs::convert::FromSpecImpl;

verus! {

/// Where a vehicle is with respect to its current stop.
#[allow(non_camel_case_types)]
#[derive(Debug, Clone, Copy, PartialEq, Eq, Structural)]
pub enum VehicleStopStatus {
    INCOMING_AT,
    STOPPED_AT,
    IN_TRANSIT_TO,
}

impl VehicleStopStatus {
    /// The number that stands for the value in the feed.
    pub open spec fn number(self) -> int {
        match self {
            VehicleStopStatus::INCOMING_AT => 0,
            VehicleStopStatus::STOPPED_AT => 1,
            VehicleStopStatus::IN_TRANSIT_TO => 2,
        }
    }

    /// The value that a number stands for; the default for a number that
    /// stands for none.
    pub open spec fn of_number(i: int) -> Self {
        if i == 0 {
            VehicleStopStatus::INCOMING_AT
        } else if i == 1 {
            VehicleStopStatus::STOPPED_AT
        } else if i == 2 {
            VehicleStopStatus::IN_TRANSIT_TO
        } else {
            VehicleStopStatus::INCOMING_AT
        }
    }

    /// The value that a name stands for; the default for a name that stands
    /// for none.
    pub open spec fn of_name(s: Seq<char>) -> Self {
        if s == "INCOMING_AT"@ {
            VehicleStopStatus::INCOMING_AT
        } else if s == "STOPPED_AT"@ {
            VehicleStopStatus::STOPPED_AT
        } else if s == "IN_TRANSIT_TO"@ {
            VehicleStopStatus::IN_TRANSIT_TO
        } else {
            VehicleStopStatus::INCOMING_AT
        }
    }

    /// The number that stands for the value in the feed.
    pub fn to_i32(self) -> (i: i32)
        ensures
            i == self.number(),
    {
        match self {
            VehicleStopStatus::INCOMING_AT => 0,
            VehicleStopStatus::STOPPED_AT => 1,
            VehicleStopStatus::IN_TRANSIT_TO => 2,
        }
    }
}

impl Default for VehicleStopStatus {
    fn default() -> (r: Self)
        ensures
            r == VehicleStopStatus::INCOMING_AT,
    {
        VehicleStopStatus::INCOMING_AT
    }
}

impl From<i32> for VehicleStopStatus {
    fn from(i: i32) -> (r: Self) {
        if i == 0 {
            VehicleStopStatus::INCOMING_AT
        } else if i == 1 {
            VehicleStopStatus::STOPPED_AT
        } else if i == 2 {
            VehicleStopStatus::IN_TRANSIT_TO
        } else {
            VehicleStopStatus::INCOMING_AT
        }
    }
}

impl FromSpecImpl<i32> for VehicleStopStatus {
    open spec fn obeys_from_spec() -> bool {
        true
    }

    open spec fn from_spec(i: i32) -> Self {
        VehicleStopStatus::of_number(i as int)
    }
}

impl<'a> From<&'a str> for VehicleStopStatus {
    fn from(s: &'a str) -> (r: Self) {
        let text = s.to_owned();
        if text == "INCOMING_AT".to_owned() {
            VehicleStopStatus::INCOMING_AT
        } else if text == "STOPPED_AT".to_owned() {
            VehicleStopStatus::STOPPED_AT
        } else if text == "IN_TRANSIT_TO".to_owned() {
            VehicleStopStatus::IN_TRANSIT_TO
        } else {
            VehicleStopStatus::INCOMING_AT
        }
    }
}

impl<'a> FromSpecImpl<&'a str> for VehicleStopStatus {
    open spec fn obeys_from_spec() -> bool {
        true
    }

    open spec fn from_spec(s: &'a str) -> Self {
        VehicleStopStatus::of_name(s@)
    }
}

/// How congested the traffic around a vehicle is.
#[allow(non_camel_case_types)]
#[derive(Debug, Clone, Copy, PartialEq, Eq, Structural)]
pub enum CongestionLevel {
    UNKNOWN_CONGESTION_LEVEL,
    RUNNING_SMOOTHLY,
    STOP_AND_GO,
    CONGESTION,
    SEVERE_CONGESTION,
}

impl CongestionLevel {
    /// The number that stands for the value in the feed.
    pub open spec fn number(self) -> int {
        match self {
            CongestionLevel::UNKNOWN_CONGESTION_LEVEL => 0,
            CongestionLevel::RUNNING_SMOOTHLY => 1,
            CongestionLevel::STOP_AND_GO => 2,
            CongestionLevel::CONGESTION => 3,
            CongestionLevel::SEVERE_CONGESTION => 4,
        }
    }

    /// The value that a number stands for; the default for a number that
    /// stands for none.
    pub open spec fn of_number(i: int) -> Self {
        if i == 0 {
            CongestionLevel::UNKNOWN_CONGESTION_LEVEL
        } else if i == 1 {
            CongestionLevel::RUNNING_SMOOTHLY
        } else if i == 2 {
            CongestionLevel::STOP_AND_GO
        } else if i == 3 {
            CongestionLevel::CONGESTION
        } else if i == 4 {
            CongestionLevel::SEVERE_CONGESTION
        } else {
            CongestionLevel::UNKNOWN_CONGESTION_LEVEL
        }
    }

    /// The value that a name stands for; the default for a name that stands
    /// for none.
    pub open spec fn of_name(s: Seq<char>) -> Self {
        if s == "UNKNOWN_CONGESTION_LEVEL"@ {
            CongestionLevel::UNKNOWN_CONGESTION_LEVEL
        } else if s == "RUNNING_SMOOTHLY"@ {
            CongestionLevel::RUNNING_SMOOTHLY
        } else if s == "STOP_AND_GO"@ {
            CongestionLevel::STOP_AND_GO
        } else if s == "CONGESTION"@ {
            CongestionLevel::CONGESTION
        } else if s == "SEVERE_CONGESTION"@ {
            CongestionLevel::SEVERE_CONGESTION
        } else {
            CongestionLevel::UNKNOWN_CONGESTION_LEVEL
        }
    }

    /// The number that stands for the value in the feed.
    pub fn to_i32(self) -> (i: i32)
        ensures
            i == self.number(),
    {
        match self {
            CongestionLevel::UNKNOWN_CONGESTION_LEVEL => 0,
            CongestionLevel::RUNNING_SMOOTHLY => 1,
            CongestionLevel::STOP_AND_GO => 2,
            CongestionLevel::CONGESTION => 3,
            CongestionLevel::SEVERE_CONGESTION => 4,
        }
    }
}

impl Default for CongestionLevel {
    fn default() -> (r: Self)
        ensures
            r == CongestionLevel::UNKNOWN_CONGESTION_LEVEL,
    {
        CongestionLevel::UNKNOWN_CONGESTION_LEVEL
    }
}

impl From<i32> for CongestionLevel {
    fn from(i: i32) -> (r: Self) {
        if i == 0 {
            CongestionLevel::UNKNOWN_CONGESTION_LEVEL
        } else if i == 1 {
            CongestionLevel::RUNNING_SMOOTHLY
        } else if i == 2 {
            CongestionLevel::STOP_AND_GO
        } else if i == 3 {
            CongestionLevel::CONGESTION
        } else if i == 4 {
            CongestionLevel::SEVERE_CONGESTION
        } else {
            CongestionLevel::UNKNOWN_CONGESTION_LEVEL
        }
    }
}

impl FromSpecImpl<i32> for CongestionLevel {
    open spec fn obeys_from_spec() -> bool {
        true
    }

    open spec fn from_spec(i: i32) -> Self {
        CongestionLevel::of_number(i as int)
    }
}

impl<'a> From<&'a str> for CongestionLevel {
    fn from(s: &'a str) -> (r: Self) {
        let text = s.to_owned();
        if text == "UNKNOWN_CONGESTION_LEVEL".to_owned() {
            CongestionLevel::UNKNOWN_CONGESTION_LEVEL
        } else if text == "RUNNING_SMOOTHLY".to_owned() {
            CongestionLevel::RUNNING_SMOOTHLY
        } else if text == "STOP_AND_GO".to_owned() {
            CongestionLevel::STOP_AND_GO
        } else if text == "CONGESTION".to_owned() {
            CongestionLevel::CONGESTION
        } else if text == "SEVERE_CONGESTION".to_owned() {
            CongestionLevel::SEVERE_CONGESTION
        } else {
            CongestionLevel::UNKNOWN_CONGESTION_LEVEL
        }
    }
}

impl<'a> FromSpecImpl<&'a str> for CongestionLevel {
    open spec fn obeys_from_spec() -> bool {
        true
    }

    open spec fn from_spec(s: &'a str) -> Self {
        CongestionLevel::of_name(s@)
    }
}

/// How full a vehicle is, as the feed reports it.
#[allow(non_camel_case_types)]
#[derive(Debug, Clone, Copy, PartialEq, Eq, Structural)]
pub enum OccupancyStatus {
    EMPTY,
    MANY_SEATS_AVAILABLE,
    FEW_SEATS_AVAILABLE,
    STANDING_ROOM_ONLY,
    CRUSHED_STANDING_ROOM_ONLY,
    FULL,
    NOT_ACCEPTING_PASSENGERS,
}

impl OccupancyStatus {
    /// The number that stands for the value in the feed.
    pub open spec fn number(self) -> int {
        match self {
            OccupancyStatus::EMPTY => 0,
            OccupancyStatus::MANY_SEATS_AVAILABLE => 1,
            OccupancyStatus::FEW_SEATS_AVAILABLE => 2,
            OccupancyStatus::STANDING_ROOM_ONLY => 3,
            OccupancyStatus::CRUSHED_STANDING_ROOM_ONLY => 4,
            OccupancyStatus::FULL => 5,
            OccupancyStatus::NOT_ACCEPTING_PASSENGERS => 6,
        }
    }

    /// The value that a number stands for; the default for a number that
    /// stands for none.
    pub open spec fn of_number(i: int) -> Self {
        if i == 0 {
            OccupancyStatus::EMPTY
        } else if i == 1 {
            OccupancyStatus::MANY_SEATS_AVAILABLE
        } else if i == 2 {
            OccupancyStatus::FEW_SEATS_AVAILABLE
        } else if i == 3 {
            OccupancyStatus::STANDING_ROOM_ONLY
        } else if i == 4 {
            OccupancyStatus::CRUSHED_STANDING_ROOM_ONLY
        } else if i == 5 {
            OccupancyStatus::FULL
        } else if i == 6 {
            OccupancyStatus::NOT_ACCEPTING_PASSENGERS
        } else {
            OccupancyStatus::EMPTY
        }
    }

    /// The value that a name stands for; the default for a name that stands
    /// for none.
    pub open spec fn of_name(s: Seq<char>) -> Self {
        if s == "EMPTY"@ {
            OccupancyStatus::EMPTY
        } else if s == "MANY_SEATS_AVAILABLE"@ {
            OccupancyStatus::MANY_SEATS_AVAILABLE
        } else if s == "FEW_SEATS_AVAILABLE"@ {
            OccupancyStatus::FEW_SEATS_AVAILABLE
        } else if s == "STANDING_ROOM_ONLY"@ {
            OccupancyStatus::STANDING_ROOM_ONLY
        } else if s == "CRUSHED_STANDING_ROOM_ONLY"@ {
            OccupancyStatus::CRUSHED_STANDING_ROOM_ONLY
        } else if s == "FULL"@ {
            OccupancyStatus::FULL
        } else if s == "NOT_ACCEPTING_PASSENGERS"@ {
            OccupancyStatus::NOT_ACCEPTING_PASSENGERS
        } else {
            OccupancyStatus::EMPTY
        }
    }

    /// The number that stands for the value in the feed.
    pub fn to_i32(self) -> (i: i32)
        ensures
            i == self.number(),
    {
        match self {
            OccupancyStatus::EMPTY => 0,
            OccupancyStatus::MANY_SEATS_AVAILABLE => 1,
            OccupancyStatus::FEW_SEATS_AVAILABLE => 2,
            OccupancyStatus::STANDING_ROOM_ONLY => 3,
            OccupancyStatus::CRUSHED_STANDING_ROOM_ONLY => 4,
            OccupancyStatus::FULL => 5,
            OccupancyStatus::NOT_ACCEPTING_PASSENGERS => 6,
        }
    }
}

impl Default for OccupancyStatus {
    fn default() -> (r: Self)
        ensures
            r == OccupancyStatus::EMPTY,
    {
        OccupancyStatus::EMPTY
    }
}

impl From<i32> for OccupancyStatus {
    fn from(i: i32) -> (r: Self) {
        if i == 0 {
            OccupancyStatus::EMPTY
        } else if i == 1 {
            OccupancyStatus::MANY_SEATS_AVAILABLE
        } else if i == 2 {
            OccupancyStatus::FEW_SEATS_AVAILABLE
        } else if i == 3 {
            OccupancyStatus::STANDING_ROOM_ONLY
        } else if i == 4 {
            OccupancyStatus::CRUSHED_STANDING_ROOM_ONLY
        } else if i == 5 {
            OccupancyStatus::FULL
        } else if i == 6 {
            OccupancyStatus::NOT_ACCEPTING_PASSENGERS
        } else {
            OccupancyStatus::EMPTY
        }
    }
}

impl FromSpecImpl<i32> for OccupancyStatus {
    open spec fn obeys_from_spec() -> bool {
        true
    }

    open spec fn from_spec(i: i32) -> Self {
        OccupancyStatus::of_number(i as int)
    }
}

impl<'a> From<&'a str> for OccupancyStatus {
    fn from(s: &'a str) -> (r: Self) {
        let text = s.to_owned();
        if text == "EMPTY".to_owned() {
            OccupancyStatus::EMPTY
        } else if text == "MANY_SEATS_AVAILABLE".to_owned() {
            OccupancyStatus::MANY_SEATS_AVAILABLE
        } else if text == "FEW_SEATS_AVAILABLE".to_owned() {
            OccupancyStatus::FEW_SEATS_AVAILABLE
        } else if text == "STANDING_ROOM_ONLY".to_owned() {
            OccupancyStatus::STANDING_ROOM_ONLY
        } else if text == "CRUSHED_STANDING_ROOM_ONLY".to_owned() {
            OccupancyStatus::CRUSHED_STANDING_ROOM_ONLY
        } else if text == "FULL".to_owned() {
            OccupancyStatus::FULL
        } else if text == "NOT_ACCEPTING_PASSENGERS".to_owned() {
            OccupancyStatus::NOT_ACCEPTING_PASSENGERS
        } else {
            OccupancyStatus::EMPTY
        }
    }
}

impl<'a> FromSpecImpl<&'a str> for OccupancyStatus {
    open spec fn obeys_from_spec() -> bool {
        true
    }

    open spec fn from_spec(s: &'a str) -> Self {
        OccupancyStatus::of_name(s@)
    }
}
} // verus!
