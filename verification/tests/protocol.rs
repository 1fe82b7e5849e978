use transit_hub::client::ClientData;
use transit_hub::gtfs::transit_realtime::Position;
use transit_hub::protocol::client_protocol::{GeoPosition, GeoPositionPoint};
use transit_hub::protocol::server_protocol::{
    clone_label, clone_route, clone_vehicles, ErrorOutput, ErrorType, PassengerInformationOutput,
    RouteInformationOutput, RouteNode, ServerOutput, Vehicle, VehiclePositionsOutput,
};

fn vehicle(name: &str) -> Vehicle {
    Vehicle {
        descriptor_id: name.to_string(),
        line: Some("8".to_string()),
        trip_id: None,
        position: Position {
            latitude: -33_868_800,
            longitude: 151_209_300,
            bearing: Some(0),
            odometer: Some(12),
            speed: None,
        },
    }
}

#[test]
fn an_error_message_holds_its_class_and_reason() {
    assert_eq!(
        ServerOutput::error_message(ErrorType::BadData, "no".to_string()),
        ServerOutput::Error(ErrorOutput {
            error_type: ErrorType::BadData,
            error_message: "no".to_string()
        })
    );
}

#[test]
fn copies_are_equal_to_what_they_copy() {
    let positions = ServerOutput::VehiclePositions(VehiclePositionsOutput {
        timestamp: 3,
        vehicles: vec![vehicle("a"), vehicle("b")],
    });
    assert_eq!(positions.clone(), positions);
    let route = ServerOutput::RouteInformation(RouteInformationOutput {
        timestamp: 4,
        route: vec![RouteNode { lat: "1".to_string(), lng: "2".to_string(), sequence: 1 }],
    });
    assert_eq!(route.clone(), route);
    let info = ServerOutput::PassengerInformation(PassengerInformationOutput {
        capacity: 3,
        passengers: 1,
    });
    assert_eq!(info.clone(), info);
    let error = ServerOutput::error_message(ErrorType::Position, "x".to_string());
    assert_eq!(error.clone(), error);
    assert_eq!(clone_vehicles(&vec![vehicle("a"), vehicle("b")]), vec![vehicle("a"), vehicle("b")]);
    assert_eq!(clone_route(&Vec::new()), vec![]);
    assert_eq!(clone_label(&Some("8".to_string())), Some("8".to_string()));
    assert_eq!(clone_label(&None), None);
}

#[test]
fn a_new_client_knows_nothing() {
    let mut client = ClientData::new(77);
    assert_eq!(
        client,
        ClientData { id: 77, position: None, reserved_seat: None, last_descriptor_request: None }
    );
    let area = GeoPosition {
        max_distance: 9,
        position: GeoPositionPoint { position_type: "Point".to_string(), coordinates: vec![1, 2] },
    };
    client.update_position(area.clone());
    client.update_last_descriptor("bus-1".to_string());
    assert_eq!(
        client,
        ClientData {
            id: 77,
            position: Some(area),
            reserved_seat: None,
            last_descriptor_request: Some("bus-1".to_string()),
        }
    );
}
