//! The records of the static transit data set.

use vstd::prelude::*;

verus! {

/// An agency.
#[derive(Debug, Clone, PartialEq, Eq)]
pub struct Agency {
    pub agency_id: String,
    pub agency_name: String,
    pub agency_url: String,
    pub agency_timezone: String,
    pub agency_lang: String,
    pub agency_fare_url: Option<String>,
}

/// Which organization runs a trip.
#[derive(Debug, Clone, PartialEq, Eq)]
pub struct Attributions {
    pub trip_id: String,
    pub organization_name: String,
    pub is_operator: u8,
}

/// The week days on which a service runs.
#[derive(Debug, Clone, PartialEq, Eq)]
pub struct Calendar {
    pub service_id: u8,
    pub monday: u8,
    pub tuesday: u8,
    pub wednesday: u8,
    pub thursday: u8,
    pub friday: u8,
    pub saturday: u8,
    pub sunday: u8,
    pub start_date: String,
    pub end_date: String,
}

/// An exception to a service's calendar.
#[derive(Debug, Clone, PartialEq, Eq)]
pub struct CalendarDates {
    pub service_id: String,
    pub date: String,
    pub exception_type: u8,
}

/// Who published the data set, and which version it is.
#[derive(Debug, Clone, PartialEq, Eq)]
pub struct FeedInfo {
    pub feed_id: String,
    pub feed_publisher_name: String,
    pub feed_publisher_url: String,
    pub feed_lang: String,
    pub feed_version: String,
}

/// A route. Where both names are present, the long one is the route's name
/// and the short one is for displays that cannot show it.
#[derive(Debug, Clone, PartialEq, Eq)]
pub struct Route {
    pub route_id: String,
    pub agency_id: String,
    pub route_short_name: String,
    pub route_long_name: Option<String>,
    pub route_type: u16,
    pub route_desc: Option<String>,
}

/// One point of a shape. The distance travelled is in millimetres.
#[derive(Debug, Clone, PartialEq, Eq)]
pub struct Shape {
    pub shape_id: String,
    pub shape_pt_lat: String,
    pub shape_pt_lon: String,
    pub shape_pt_sequence: u32,
    pub shape_dist_traveled: Option<u64>,
}

/// When a trip calls at a stop. The distance travelled is in millimetres.
#[derive(Debug, Clone, PartialEq, Eq)]
pub struct StopTime {
    pub trip_id: String,
    pub arrival_time: String,
    pub departure_time: String,
    pub stop_id: String,
    pub stop_sequence: u32,
    pub stop_headsign: String,
    pub pickup_type: u8,
    pub drop_off_type: u8,
    pub shape_dist_traveled: Option<u64>,
    pub timepoint: u8,
}

/// A stop.
#[derive(Debug, Clone, PartialEq, Eq)]
pub struct Stop {
    pub stop_id: String,
    pub stop_name: String,
    pub stop_lat: String,
    pub stop_lon: String,
    pub location_type: u8,
    pub parent_station: Option<String>,
    pub platform_code: Option<String>,
}

/// A transfer between two stops.
#[derive(Debug, Clone, PartialEq, Eq)]
pub struct Transfer {
    pub from_stop_id: String,
    pub to_stop_id: String,
    pub transfer_type: u8,
    pub min_transfer_time: Option<String>,
    pub from_trip_id: String,
    pub to_trip_id: String,
}

/// A trip.
#[derive(Debug, Clone, PartialEq, Eq)]
pub struct Trip {
    pub route_id: String,
    pub service_id: u8,
    pub trip_id: String,
    pub trip_headsign: Option<String>,
    pub direction_id: u8,
    pub shape_id: u8,
}

} // verus!
