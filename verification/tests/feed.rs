use transit_hub::feed::{
    echo_after_fetch, route_query, set_line, trip_query, vehicle_from_entity, vehicles_from_feed,
};
use transit_hub::messages::EchoPositions;
use transit_hub::gtfs::trafiklab::TrafiklabApi;
use transit_hub::gtfs::transit_realtime::mod_Alert::{Cause, Effect};
use transit_hub::gtfs::transit_realtime::mod_FeedHeader::Incrementality;
use transit_hub::gtfs::transit_realtime::mod_TripDescriptor::ScheduleRelationship;
use transit_hub::gtfs::transit_realtime::mod_TripUpdate::mod_StopTimeUpdate::ScheduleRelationship as StopTimeRelationship;
use transit_hub::gtfs::transit_realtime::mod_VehiclePosition::{
    CongestionLevel, OccupancyStatus, VehicleStopStatus,
};
use transit_hub::gtfs::transit_realtime::{
    FeedEntity, FeedHeader, FeedMessage, Position, TripDescriptor, VehicleDescriptor,
    VehiclePosition,
};
use transit_hub::gtfs::transit_static::{Route, Trip};
use transit_hub::protocol::server_protocol::Vehicle;
use transit_hub::route::StoreQuery;

fn position(latitude: i32) -> Position {
    Position { latitude, longitude: 17_638_900, bearing: Some(90_000), odometer: None, speed: Some(8_300) }
}

fn entity(id: Option<&str>, trip_id: Option<&str>, at: Option<Position>) -> FeedEntity {
    FeedEntity {
        id: "e".to_string(),
        is_deleted: false,
        vehicle: Some(VehiclePosition {
            trip: Some(TripDescriptor {
                trip_id: trip_id.map(|t| t.to_string()),
                route_id: None,
                direction_id: None,
                start_time: None,
                start_date: None,
                schedule_relationship: Some(ScheduleRelationship::SCHEDULED),
            }),
            vehicle: Some(VehicleDescriptor {
                id: id.map(|i| i.to_string()),
                label: None,
                license_plate: None,
            }),
            position: at,
            current_stop_sequence: None,
            stop_id: None,
            current_status: VehicleStopStatus::IN_TRANSIT_TO,
            timestamp: Some(1),
            congestion_level: None,
            occupancy_status: Some(OccupancyStatus::FEW_SEATS_AVAILABLE),
        }),
    }
}

fn vehicle(id: &str, trip_id: &str, latitude: i32) -> Vehicle {
    Vehicle {
        descriptor_id: id.to_string(),
        line: None,
        trip_id: Some(trip_id.to_string()),
        position: position(latitude),
    }
}

#[test]
fn vehicles_without_a_trip_are_left_out() {
    let feed = FeedMessage {
        header: FeedHeader {
            gtfs_realtime_version: "2.0".to_string(),
            incrementality: Incrementality::FULL_DATASET,
            timestamp: Some(1),
        },
        entity: vec![
            entity(Some("a"), Some("t-a"), Some(position(1))),
            entity(Some("b"), None, Some(position(2))),
            entity(None, Some("t-c"), Some(position(3))),
            entity(Some("d"), Some("t-d"), None),
            FeedEntity { id: "e".to_string(), is_deleted: false, vehicle: None },
            entity(Some("f"), Some("t-f"), Some(position(6))),
        ],
    };
    assert_eq!(vehicles_from_feed(&feed), vec![vehicle("a", "t-a", 1), vehicle("f", "t-f", 6)]);
    assert_eq!(vehicle_from_entity(&feed.entity[1]), None);
    assert_eq!(vehicle_from_entity(&feed.entity[5]), Some(vehicle("f", "t-f", 6)));
    let mut without_descriptor = entity(Some("g"), Some("t-g"), Some(position(7)));
    without_descriptor.vehicle.as_mut().unwrap().vehicle = None;
    assert_eq!(vehicle_from_entity(&without_descriptor), None);
    let mut without_trip = entity(Some("g"), Some("t-g"), Some(position(7)));
    without_trip.vehicle.as_mut().unwrap().trip = None;
    assert_eq!(vehicle_from_entity(&without_trip), None);
}

#[test]
fn an_empty_feed_gives_no_vehicles() {
    let feed = FeedMessage {
        header: FeedHeader {
            gtfs_realtime_version: "2.0".to_string(),
            incrementality: Incrementality::DIFFERENTIAL,
            timestamp: None,
        },
        entity: vec![],
    };
    assert_eq!(vehicles_from_feed(&feed), vec![]);
}

#[test]
fn the_line_is_the_short_name_of_the_route() {
    let mut v = vehicle("a", "t-a", 1);
    assert_eq!(trip_query(&v), Some(StoreQuery::TripById("t-a".to_string())));
    let trip = Some(Trip {
        route_id: "r-9".to_string(),
        service_id: 1,
        trip_id: "t-a".to_string(),
        trip_headsign: None,
        direction_id: 1,
        shape_id: 3,
    });
    assert_eq!(route_query(&trip), Some(StoreQuery::RouteById("r-9".to_string())));
    assert_eq!(route_query(&None), None);
    set_line(&mut v, &None);
    assert_eq!(v, vehicle("a", "t-a", 1));
    let route = Some(Route {
        route_id: "r-9".to_string(),
        agency_id: "ul".to_string(),
        route_short_name: "801".to_string(),
        route_long_name: Some("Uppsala - Knivsta".to_string()),
        route_type: 700,
        route_desc: None,
    });
    set_line(&mut v, &route);
    let mut expected = vehicle("a", "t-a", 1);
    expected.line = Some("801".to_string());
    assert_eq!(v, expected);
    v.trip_id = None;
    assert_eq!(trip_query(&v), None);
}

#[test]
fn test_get_vehicle_positions() {
    let handler = TrafiklabApi::new("this_doesnt_matter", "neither_does_this");
    let get_result = handler.get_vehicle_positions();

    assert_eq!(get_result.is_none(), true);
}

#[test]
fn test_bad_api_key() {
    let mut handler = TrafiklabApi::new("this_is_not_a_valid_key", "neither_does_this");
    let body = "{\"errorMessage\": \"Key \\\"this_is_not_a_valid_key\\\" is invalid\"}";
    let reported = Some("Key \"this_is_not_a_valid_key\" is invalid".to_string());
    let request_result = handler.fetch_vehicle_positions(body.as_bytes().to_vec(), reported);

    assert_eq!(request_result.is_err(), true);
    assert_eq!(request_result, Err("Key \"this_is_not_a_valid_key\" is invalid".to_string()));
    assert_eq!(handler.get_vehicle_positions(), None);
}

#[test]
fn only_binary_bodies_are_kept() {
    let mut api = TrafiklabApi::new("rt", "st");
    assert_eq!(
        api.vehicle_positions_url(),
        "https://opendata.samtrafiken.se/gtfs-rt/ul/VehiclePositions.pb?key=rt"
    );
    assert_eq!(api.static_data_url(), "https://opendata.samtrafiken.se/gtfs/ul/ul.zip?key=st");

    let binary = vec![0x0a, 0x03, 0xff, 0xfe, 0x80];
    assert_eq!(TrafiklabApi::body_text(&binary), None);
    assert_eq!(api.fetch_vehicle_positions(binary.clone(), None), Ok(()));
    assert_eq!(api.get_vehicle_positions(), Some(binary));

    let text = "<html>busy</html>".as_bytes().to_vec();
    assert_eq!(TrafiklabApi::body_text(&text), Some("<html>busy</html>".to_string()));
    assert_eq!(
        api.fetch_vehicle_positions(text, None),
        Err("Data not in Protocol Buffer format.".to_string())
    );
    assert_eq!(api.get_vehicle_positions(), None);

    // An empty body is text, and holds no data.
    assert_eq!(TrafiklabApi::body_text(&Vec::new()), Some(String::new()));
    assert!(api.fetch_vehicle_positions(Vec::new(), None).is_err());
    // A truncated multi-byte character is no text.
    assert_eq!(TrafiklabApi::body_text(&vec![0xc3]), None);
    assert_eq!(TrafiklabApi::body_text(&"å".as_bytes().to_vec()), Some("å".to_string()));
}

#[test]
fn numbers_stand_for_the_values_of_the_feed() {
    assert_eq!(Incrementality::from(0), Incrementality::FULL_DATASET);
    assert_eq!(Incrementality::from(1), Incrementality::DIFFERENTIAL);
    assert_eq!(Incrementality::from(2), Incrementality::FULL_DATASET);
    assert_eq!(Incrementality::from(-1), Incrementality::default());
    assert_eq!(Incrementality::DIFFERENTIAL.to_i32(), 1);

    assert_eq!(StopTimeRelationship::from(1), StopTimeRelationship::SKIPPED);
    assert_eq!(StopTimeRelationship::from(2), StopTimeRelationship::NO_DATA);
    assert_eq!(StopTimeRelationship::from(3), StopTimeRelationship::SCHEDULED);
    assert_eq!(ScheduleRelationship::from(1), ScheduleRelationship::ADDED);
    assert_eq!(ScheduleRelationship::from(3), ScheduleRelationship::CANCELED);
    assert_eq!(ScheduleRelationship::from(4), ScheduleRelationship::SCHEDULED);

    assert_eq!(VehicleStopStatus::from(2), VehicleStopStatus::IN_TRANSIT_TO);
    assert_eq!(VehicleStopStatus::from(3), VehicleStopStatus::INCOMING_AT);
    assert_eq!(VehicleStopStatus::default(), VehicleStopStatus::INCOMING_AT);
    assert_eq!(CongestionLevel::from(4), CongestionLevel::SEVERE_CONGESTION);
    assert_eq!(CongestionLevel::from(5), CongestionLevel::UNKNOWN_CONGESTION_LEVEL);
    assert_eq!(OccupancyStatus::from(6), OccupancyStatus::NOT_ACCEPTING_PASSENGERS);
    assert_eq!(OccupancyStatus::from(7), OccupancyStatus::EMPTY);

    // Causes and effects are counted from one.
    assert_eq!(Cause::from(0), Cause::UNKNOWN_CAUSE);
    assert_eq!(Cause::from(1), Cause::UNKNOWN_CAUSE);
    assert_eq!(Cause::from(12), Cause::MEDICAL_EMERGENCY);
    assert_eq!(Cause::from(13), Cause::UNKNOWN_CAUSE);
    assert_eq!(Effect::from(0), Effect::NO_SERVICE);
    assert_eq!(Effect::from(8), Effect::UNKNOWN_EFFECT);
    assert_eq!(Effect::from(9), Effect::STOP_MOVED);
    assert_eq!(Effect::from(i32::MIN), Effect::NO_SERVICE);
    for number in 1..=12 {
        assert_eq!(Cause::from(number).to_i32(), number);
    }
    for number in 1..=9 {
        assert_eq!(Effect::from(number).to_i32(), number);
    }
    for number in 0..=6 {
        assert_eq!(OccupancyStatus::from(number).to_i32(), number);
    }
}

#[test]
fn names_stand_for_the_values_of_the_feed() {
    assert_eq!(Incrementality::from("DIFFERENTIAL"), Incrementality::DIFFERENTIAL);
    assert_eq!(Incrementality::from("differential"), Incrementality::FULL_DATASET);
    assert_eq!(Incrementality::from(""), Incrementality::FULL_DATASET);
    assert_eq!(StopTimeRelationship::from("NO_DATA"), StopTimeRelationship::NO_DATA);
    assert_eq!(StopTimeRelationship::from("ADDED"), StopTimeRelationship::SCHEDULED);
    assert_eq!(ScheduleRelationship::from("UNSCHEDULED"), ScheduleRelationship::UNSCHEDULED);
    assert_eq!(ScheduleRelationship::from("SKIPPED"), ScheduleRelationship::SCHEDULED);
    assert_eq!(VehicleStopStatus::from("STOPPED_AT"), VehicleStopStatus::STOPPED_AT);
    assert_eq!(CongestionLevel::from("STOP_AND_GO"), CongestionLevel::STOP_AND_GO);
    assert_eq!(OccupancyStatus::from("FULL"), OccupancyStatus::FULL);
    assert_eq!(OccupancyStatus::from("FULL "), OccupancyStatus::EMPTY);
    assert_eq!(Cause::from("STRIKE"), Cause::STRIKE);
    assert_eq!(Cause::from("WEATHER"), Cause::WEATHER);
    assert_eq!(Cause::from("RAIN"), Cause::UNKNOWN_CAUSE);
    assert_eq!(Effect::from("DETOUR"), Effect::DETOUR);
    assert_eq!(Effect::from("UNKNOWN_EFFECT"), Effect::UNKNOWN_EFFECT);
    assert_eq!(Effect::from("NONE"), Effect::NO_SERVICE);
}

#[test]
fn a_failed_fetch_skips_the_tick() {
    assert_eq!(echo_after_fetch(&Ok(())), Some(EchoPositions));
    assert_eq!(echo_after_fetch(&Err("Key is invalid".to_string())), None);
}
