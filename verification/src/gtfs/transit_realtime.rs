//! The realtime feed, as far as the hub reads it: the vehicles, each with
//! its descriptor, its trip and its position.

#[allow(non_snake_case)]
pub mod mod_Alert;
#[allow(non_snake_case)]
pub mod mod_FeedHeader;
#[allow(non_snake_case)]
pub mod mod_TripDescriptor;
#[allow(non_snake_case)]
pub mod mod_TripUpdate;
#[allow(non_snake_case)]
pub mod mod_VehiclePosition;

use vstd::prelude::*;

verus! {

/// Where a vehicle is. Latitude and longitude are in microdegrees, the bearing
/// in millidegrees, the odometer in millimetres and the speed in millimetres
/// per second.
#[derive(Debug, Clone, Copy, PartialEq, Eq)]
pub struct Position {
    pub latitude: i32,
    pub longitude: i32,
    pub bearing: Option<i32>,
    pub odometer: Option<u64>,
    pub speed: Option<u32>,
}

/// The trip a vehicle is on.
#[derive(Debug, Clone, PartialEq, Eq)]
pub struct TripDescriptor {
    pub trip_id: Option<String>,
    pub route_id: Option<String>,
    pub direction_id: Option<u32>,
    pub start_time: Option<String>,
    pub start_date: Option<String>,
    pub schedule_relationship: Option<mod_TripDescriptor::ScheduleRelationship>,
}

/// What identifies a vehicle.
#[derive(Debug, Clone, PartialEq, Eq)]
pub struct VehicleDescriptor {
    pub id: Option<String>,
    pub label: Option<String>,
    pub license_plate: Option<String>,
}

/// The realtime position of one vehicle.
#[derive(Debug, Clone, PartialEq, Eq)]
pub struct VehiclePosition {
    pub trip: Option<TripDescriptor>,
    pub vehicle: Option<VehicleDescriptor>,
    pub position: Option<Position>,
    pub current_stop_sequence: Option<u32>,
    pub stop_id: Option<String>,
    pub current_status: mod_VehiclePosition::VehicleStopStatus,
    pub timestamp: Option<u64>,
    pub congestion_level: Option<mod_VehiclePosition::CongestionLevel>,
    pub occupancy_status: Option<mod_VehiclePosition::OccupancyStatus>,
}

/// One entity of the feed.
#[derive(Debug, Clone, PartialEq, Eq)]
pub struct FeedEntity {
    pub id: String,
    pub is_deleted: bool,
    pub vehicle: Option<VehiclePosition>,
}

/// What the feed says of itself.
#[derive(Debug, Clone, PartialEq, Eq)]
pub struct FeedHeader {
    pub gtfs_realtime_version: String,
    pub incrementality: mod_FeedHeader::Incrementality,
    pub timestamp: Option<u64>,
}

/// One message of the feed.
#[derive(Debug, Clone, PartialEq, Eq)]
pub struct FeedMessage {
    pub header: FeedHeader,
    pub entity: Vec<FeedEntity>,
}

} // verus!
