use transit_hub::database::{
    collection, field, get_shapes, node_from_shape, static_database, wanted,
};
use transit_hub::geometry::sort_route;
use transit_hub::gtfs::transit_static::{Route, Shape, Trip};
use transit_hub::lobby::Lobby;
use transit_hub::messages::{Connect, Disconnect, Outbound, RouteRequest};
use transit_hub::protocol::server_protocol::{
    ErrorOutput, ErrorType, RouteInformationOutput, RouteNode, ServerOutput,
};
use transit_hub::route::{
    advance, route_found, route_request, shapes_found, start, trip_found, RouteLookup, RouteStep,
    StoreAnswer, StoreQuery,
};

fn request(identifier: &str) -> RouteRequest {
    RouteRequest { self_id: 1, identifier: identifier.to_string() }
}

fn error(error_type: ErrorType, reason: &str) -> ServerOutput {
    ServerOutput::Error(ErrorOutput { error_type, error_message: reason.to_string() })
}

fn route(id: &str, short_name: &str) -> Route {
    Route {
        route_id: id.to_string(),
        agency_id: "ul".to_string(),
        route_short_name: short_name.to_string(),
        route_long_name: None,
        route_type: 700,
        route_desc: Some("Stadsbuss".to_string()),
    }
}

fn trip(route_id: &str, shape_id: u8) -> Trip {
    Trip {
        route_id: route_id.to_string(),
        service_id: 1,
        trip_id: "t-1".to_string(),
        trip_headsign: None,
        direction_id: 0,
        shape_id,
    }
}

fn node(lat: &str, lng: &str, sequence: i32) -> RouteNode {
    RouteNode { lat: lat.to_string(), lng: lng.to_string(), sequence }
}

#[test]
fn empty_identifier_is_refused_without_asking_the_store() {
    let refused = RouteStep::Reply(error(ErrorType::RouteInfo, "'' is not a valid identifier"));
    assert_eq!(route_request(&request("")), refused);
    assert_eq!(start(&request("")), (RouteLookup::Done, refused));
}

#[test]
fn short_identifiers_are_line_numbers() {
    for line in ["8", "80", "801", "åäö"] {
        assert_eq!(
            start(&request(line)),
            (
                RouteLookup::AwaitingRoute,
                RouteStep::Ask(StoreQuery::RouteByShortName(line.to_string()))
            )
        );
    }
    for id in ["8011", "190010801251114726"] {
        assert_eq!(
            start(&request(id)),
            (RouteLookup::AwaitingTrip, RouteStep::Ask(StoreQuery::TripById(id.to_string())))
        );
    }
}

#[test]
fn a_line_number_leads_to_its_shape() {
    let msg = request("801");
    let (state, step) = start(&msg);
    assert_eq!(step, RouteStep::Ask(StoreQuery::RouteByShortName("801".to_string())));
    let (state, step) =
        advance(state, &msg, StoreAnswer::Route(Some(route("r-9", "801"))), 10);
    assert_eq!(state, RouteLookup::AwaitingTrip);
    assert_eq!(step, RouteStep::Ask(StoreQuery::TripByRouteId("r-9".to_string())));
    let (state, step) = advance(state, &msg, StoreAnswer::Trip(Some(trip("r-9", 42))), 10);
    assert_eq!(state, RouteLookup::AwaitingShapes);
    assert_eq!(step, RouteStep::Ask(StoreQuery::ShapesById("42".to_string())));
    let nodes = vec![node("59.1", "17.1", 1), node("59.2", "17.2", 2)];
    let (state, step) = advance(state, &msg, StoreAnswer::Shapes(Some(nodes)), 1234);
    assert_eq!(state, RouteLookup::Done);
    assert_eq!(
        step,
        RouteStep::Reply(ServerOutput::RouteInformation(RouteInformationOutput {
            timestamp: 1234,
            route: vec![node("59.1", "17.1", 1), node("59.2", "17.2", 2)],
        }))
    );
}

#[test]
fn what_the_store_lacks_is_reported() {
    let msg = request("99");
    assert_eq!(
        route_found(&msg, None),
        RouteStep::Reply(error(ErrorType::RouteInfo, "'99' is not a valid line number"))
    );
    assert_eq!(
        trip_found(None),
        RouteStep::Reply(error(ErrorType::ServerError, "Unable to retrieve data"))
    );
    assert_eq!(shapes_found(None, 5), error(ErrorType::ServerError, "Unable to retrieve data"));
    assert_eq!(
        shapes_found(Some(vec![]), 5),
        ServerOutput::RouteInformation(RouteInformationOutput { timestamp: 5, route: vec![] })
    );
}

#[test]
fn an_answer_nobody_waited_for_is_a_failure_of_the_store() {
    let msg = request("801");
    let failure = RouteStep::Reply(error(ErrorType::ServerError, "Unable to retrieve data"));
    assert_eq!(
        advance(RouteLookup::AwaitingRoute, &msg, StoreAnswer::Trip(Some(trip("r", 1))), 1),
        (RouteLookup::Done, RouteStep::Reply(error(ErrorType::ServerError, "Unable to retrieve data")))
    );
    assert_eq!(
        advance(RouteLookup::AwaitingTrip, &msg, StoreAnswer::Shapes(Some(vec![])), 1).1,
        failure
    );
    assert_eq!(
        advance(RouteLookup::AwaitingShapes, &msg, StoreAnswer::Route(None), 1).1,
        failure
    );
    assert_eq!(advance(RouteLookup::Done, &msg, StoreAnswer::Route(None), 1).1, failure);
}

#[test]
fn shape_identifiers_are_written_in_decimal() {
    for (shape_id, text) in
        [(0u8, "0"), (7, "7"), (9, "9"), (10, "10"), (42, "42"), (99, "99"), (100, "100"), (109, "109"), (255, "255")]
    {
        assert_eq!(
            trip_found(Some(trip("r", shape_id))),
            RouteStep::Ask(StoreQuery::ShapesById(text.to_string()))
        );
    }
}

#[test]
fn a_reply_for_a_session_that_left_is_dropped() {
    let mut hub = Lobby::new();
    hub.connect(Connect { self_id: 1 });
    let reply = shapes_found(Some(vec![node("59.1", "17.1", 1)]), 9);
    assert_eq!(
        hub.send_message(reply.clone(), 1),
        Some(Outbound { to: 1, message: reply.clone() })
    );
    hub.disconnect(Disconnect { self_id: 1 });
    assert_eq!(hub.send_message(reply, 1), None);
}

#[test]
fn questions_know_their_collection() {
    assert_eq!(static_database(), "trafiklab-static-data");
    let cases = [
        (StoreQuery::RouteByShortName("8".to_string()), "routes", "route_short_name", "8"),
        (StoreQuery::RouteById("r-1".to_string()), "routes", "route_id", "r-1"),
        (StoreQuery::TripByRouteId("r-1".to_string()), "trips", "route_id", "r-1"),
        (StoreQuery::TripById("t-1".to_string()), "trips", "trip_id", "t-1"),
        (StoreQuery::ShapesById("42".to_string()), "shapes", "shape_id", "42"),
    ];
    for (query, in_collection, by_field, value) in cases {
        assert_eq!(collection(&query), in_collection);
        assert_eq!(field(&query), by_field);
        assert_eq!(wanted(&query), value);
    }
}

fn shape(lat: &str, sequence: u32) -> Shape {
    Shape {
        shape_id: "42".to_string(),
        shape_pt_lat: lat.to_string(),
        shape_pt_lon: "17.6".to_string(),
        shape_pt_sequence: sequence,
        shape_dist_traveled: None,
    }
}

#[test]
fn shapes_become_route_nodes_in_order() {
    let shapes = vec![shape("59.2", 2), shape("59.1", 1), shape("59.3", 2_147_483_647), shape("59.4", 0)];
    assert_eq!(
        get_shapes(&Some(shapes)),
        Some(vec![
            node("59.4", "17.6", 0),
            node("59.1", "17.6", 1),
            node("59.2", "17.6", 2),
            node("59.3", "17.6", 2_147_483_647),
        ])
    );
    assert_eq!(get_shapes(&Some(Vec::new())), Some(vec![]));
    assert_eq!(get_shapes(&None), None);
}

#[test]
fn points_with_the_same_place_keep_their_order() {
    let shapes = vec![shape("c", 5), shape("a", 1), shape("d", 5), shape("b", 1), shape("e", 5)];
    assert_eq!(
        get_shapes(&Some(shapes)),
        Some(vec![
            node("a", "17.6", 1),
            node("b", "17.6", 1),
            node("c", "17.6", 5),
            node("d", "17.6", 5),
            node("e", "17.6", 5),
        ])
    );
}

#[test]
fn a_point_that_fits_no_node_is_a_failure_of_the_store() {
    let shapes = vec![shape("59.1", 1), shape("59.2", 2_147_483_648), shape("59.3", 3)];
    assert_eq!(get_shapes(&Some(shapes)), None);
    assert_eq!(get_shapes(&Some(vec![shape("59.2", u32::MAX)])), None);
    assert_eq!(node_from_shape(&shape("59.2", 2_147_483_648)), None);
    assert_eq!(node_from_shape(&shape("59.2", 7)), Some(node("59.2", "17.6", 7)));
}

#[test]
fn every_route_in_a_reply_is_ordered() {
    let nodes = vec![node("c", "3", 30), node("a", "1", 10), node("b", "2", 20), node("z", "0", -4)];
    let ordered = vec![node("z", "0", -4), node("a", "1", 10), node("b", "2", 20), node("c", "3", 30)];
    assert_eq!(
        shapes_found(Some(nodes.clone()), 7),
        ServerOutput::RouteInformation(RouteInformationOutput { timestamp: 7, route: ordered.clone() })
    );
    assert_eq!(sort_route(&nodes), ordered);
    assert_eq!(sort_route(&ordered), ordered);
    let reversed: Vec<RouteNode> = ordered.iter().rev().cloned().collect();
    assert_eq!(sort_route(&reversed), ordered);
    let msg = request("1234");
    assert_eq!(
        advance(RouteLookup::AwaitingShapes, &msg, StoreAnswer::Shapes(Some(reversed)), 9),
        (
            RouteLookup::Done,
            RouteStep::Reply(ServerOutput::RouteInformation(RouteInformationOutput {
                timestamp: 9,
                route: ordered,
            }))
        )
    );
}
