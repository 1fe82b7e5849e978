use transit_hub::lobby::{Lobby, LobbyReply};
use transit_hub::messages::{
    Connect, Disconnect, LobbyRequest, Outbound, PassengerInfo, PositionUpdate, ReserveSeat,
    RouteRequest, UnreserveSeat,
};
use transit_hub::protocol::client_protocol::{GeoPosition, GeoPositionPoint};
use transit_hub::protocol::server_protocol::{
    ErrorOutput, ErrorType, PassengerInformationOutput, ServerOutput,
};
use transit_hub::route::{RouteLookup, StoreQuery};

fn area() -> GeoPosition {
    GeoPosition {
        max_distance: 500_000,
        position: GeoPositionPoint {
            position_type: "Point".to_string(),
            coordinates: vec![59_858_600, 17_638_900],
        },
    }
}

#[test]
fn every_request_goes_through_one_door() {
    let mut hub = Lobby::new();
    assert_eq!(
        hub.handle(LobbyRequest::Connect(Connect { self_id: 1 })),
        LobbyReply::Send(vec![])
    );
    assert!(hub.is_connected(1));
    assert_eq!(
        hub.handle(LobbyRequest::PositionUpdate(PositionUpdate { self_id: 1, position: area() })),
        LobbyReply::Send(vec![])
    );
    assert_eq!(hub.position_of(1), Some(area()));

    let reply = hub.handle(LobbyRequest::PassengerInfo(PassengerInfo {
        self_id: 1,
        descriptor_id: "bus-1".to_string(),
    }));
    let entry = hub.passenger_information(&"bus-1".to_string()).unwrap();
    assert!(0 <= entry.passengers && entry.passengers < 15);
    assert!(20 <= entry.capacity && entry.capacity < 35);
    assert_eq!(
        reply,
        LobbyReply::Send(vec![Outbound {
            to: 1,
            message: ServerOutput::PassengerInformation(entry),
        }])
    );

    let taken = PassengerInformationOutput {
        capacity: entry.capacity,
        passengers: entry.passengers + 1,
    };
    assert_eq!(
        hub.handle(LobbyRequest::ReserveSeat(ReserveSeat {
            self_id: 1,
            descriptor_id: "bus-1".to_string(),
        })),
        LobbyReply::Send(vec![Outbound {
            to: 1,
            message: ServerOutput::PassengerInformation(taken),
        }])
    );
    assert_eq!(
        hub.handle(LobbyRequest::UnreserveSeat(UnreserveSeat { self_id: 1 })),
        LobbyReply::Send(vec![Outbound {
            to: 1,
            message: ServerOutput::PassengerInformation(entry),
        }])
    );
    assert_eq!(
        hub.handle(LobbyRequest::Disconnect(Disconnect { self_id: 1 })),
        LobbyReply::Send(vec![])
    );
    assert!(!hub.has_clients());
}

#[test]
fn route_requests_start_a_lookup_or_are_refused_at_once() {
    let mut hub = Lobby::new();
    hub.connect(Connect { self_id: 1 });
    assert_eq!(
        hub.handle(LobbyRequest::RouteRequest(RouteRequest {
            self_id: 1,
            identifier: "801".to_string(),
        })),
        LobbyReply::Lookup(
            RouteRequest { self_id: 1, identifier: "801".to_string() },
            RouteLookup::AwaitingRoute,
            StoreQuery::RouteByShortName("801".to_string()),
        )
    );
    assert_eq!(
        hub.route_request(RouteRequest { self_id: 1, identifier: "190010801".to_string() }),
        LobbyReply::Lookup(
            RouteRequest { self_id: 1, identifier: "190010801".to_string() },
            RouteLookup::AwaitingTrip,
            StoreQuery::TripById("190010801".to_string()),
        )
    );
    assert_eq!(
        hub.handle(LobbyRequest::RouteRequest(RouteRequest {
            self_id: 1,
            identifier: String::new(),
        })),
        LobbyReply::Send(vec![Outbound {
            to: 1,
            message: ServerOutput::Error(ErrorOutput {
                error_type: ErrorType::RouteInfo,
                error_message: "'' is not a valid identifier".to_string(),
            }),
        }])
    );
    // A session that has left is sent nothing.
    assert_eq!(
        hub.handle(LobbyRequest::RouteRequest(RouteRequest {
            self_id: 2,
            identifier: String::new(),
        })),
        LobbyReply::Send(vec![])
    );
}
