//! Answering a request for the geometry of a route.
//!
//! The store is slow, so the answer is found in steps. Each step either asks
//! the store one question or gives the reply for the client. The caller puts
//! the questions to the store and hands the answers back.

use vstd::prelude::*;
use vstd::string::{StrSliceExecFns, StringExecFns};
use crate::geometry::{in_order, lemma_sorted_nodes, sort_route, sorted_nodes};
use crate::gtfs::transit_static::{Route, Trip};
use crate::messages::RouteRequest;
use crate::protocol::server_protocol::{
    error_view, route_views, ErrorType, RouteInformationOutput, RouteInformationView, RouteNode,
    ServerOutput, ServerOutputView,
};

verus! {

/// A question for the store.
#[derive(Debug, Clone, PartialEq, Eq)]
pub enum StoreQuery {
    /// The route with this short name.
    RouteByShortName(String),
    /// The route with this identifier.
    RouteById(String),
    /// A trip of the route with this identifier.
    TripByRouteId(String),
    /// The trip with this identifier.
    TripById(String),
    /// The nodes of the shape with this identifier.
    ShapesById(String),
}

/// What a [`StoreQuery`] says.
pub enum StoreQueryView {
    RouteByShortName(Seq<char>),
    RouteById(Seq<char>),
    TripByRouteId(Seq<char>),
    TripById(Seq<char>),
    ShapesById(Seq<char>),
}

impl View for StoreQuery {
    type V = StoreQueryView;

    open spec fn view(&self) -> StoreQueryView {
        match *self {
            StoreQuery::RouteByShortName(s) => StoreQueryView::RouteByShortName(s@),
            StoreQuery::RouteById(s) => StoreQueryView::RouteById(s@),
            StoreQuery::TripByRouteId(s) => StoreQueryView::TripByRouteId(s@),
            StoreQuery::TripById(s) => StoreQueryView::TripById(s@),
            StoreQuery::ShapesById(s) => StoreQueryView::ShapesById(s@),
        }
    }
}

/// What to do next: ask the store, or reply to the client.
#[derive(Debug, Clone, PartialEq, Eq)]
pub enum RouteStep {
    Ask(StoreQuery),
    Reply(ServerOutput),
}

/// What a [`RouteStep`] says.
pub enum RouteStepView {
    Ask(StoreQueryView),
    Reply(ServerOutputView),
}

impl View for RouteStep {
    type V = RouteStepView;

    open spec fn view(&self) -> RouteStepView {
        match *self {
            RouteStep::Ask(q) => RouteStepView::Ask(q@),
            RouteStep::Reply(m) => RouteStepView::Reply(m@),
        }
    }
}

/// The reason given for an identifier that cannot name anything.
pub open spec fn invalid_identifier_text(identifier: Seq<char>) -> Seq<char> {
    "'"@ + identifier + "' is not a valid identifier"@
}

/// The reason given for a line number that the store does not know.
pub open spec fn invalid_line_text(identifier: Seq<char>) -> Seq<char> {
    "'"@ + identifier + "' is not a valid line number"@
}

/// The reason given when the store has no answer.
pub open spec fn no_data_text() -> Seq<char> {
    "Unable to retrieve data"@
}

/// An identifier of up to three characters is a line number; a longer one is
/// the identifier of a trip.
pub open spec fn is_line_number(identifier: Seq<char>) -> bool {
    identifier.len() <= 3
}

/// The decimal digit `d`.
pub open spec fn digit(d: int) -> char {
    if d == 0 {
        '0'
    } else if d == 1 {
        '1'
    } else if d == 2 {
        '2'
    } else if d == 3 {
        '3'
    } else if d == 4 {
        '4'
    } else if d == 5 {
        '5'
    } else if d == 6 {
        '6'
    } else if d == 7 {
        '7'
    } else if d == 8 {
        '8'
    } else {
        '9'
    }
}

/// The decimal text of a number below 256, without leading zeros.
pub open spec fn decimal_text(n: u8) -> Seq<char> {
    if n < 10 {
        seq![digit(n as int)]
    } else if n < 100 {
        seq![digit(n as int / 10), digit(n as int % 10)]
    } else {
        seq![digit(n as int / 100), digit(n as int / 10 % 10), digit(n as int % 10)]
    }
}

/// The text of one decimal digit.
fn digit_text(d: u8) -> (text: &'static str)
    requires
        d < 10,
    ensures
        text@ == seq![digit(d as int)],
{
    proof {
        reveal_strlit("0");
        reveal_strlit("1");
        reveal_strlit("2");
        reveal_strlit("3");
        reveal_strlit("4");
        reveal_strlit("5");
        reveal_strlit("6");
        reveal_strlit("7");
        reveal_strlit("8");
        reveal_strlit("9");
    }
    let text = if d == 0 {
        "0"
    } else if d == 1 {
        "1"
    } else if d == 2 {
        "2"
    } else if d == 3 {
        "3"
    } else if d == 4 {
        "4"
    } else if d == 5 {
        "5"
    } else if d == 6 {
        "6"
    } else if d == 7 {
        "7"
    } else if d == 8 {
        "8"
    } else {
        "9"
    };
    proof {
        assert(text@ =~= seq![digit(d as int)]);
    }
    text
}

/// The decimal text of a number below 256.
fn decimal(n: u8) -> (text: String)
    ensures
        text@ == decimal_text(n),
{
    if n < 10 {
        digit_text(n).to_owned()
    } else if n < 100 {
        let text = digit_text(n / 10).to_owned().concat(digit_text(n % 10));
        proof {
            assert(text@ =~= decimal_text(n));
        }
        text
    } else {
        let text = digit_text(n / 100).to_owned().concat(digit_text(n / 10 % 10)).concat(
            digit_text(n % 10),
        );
        proof {
            assert(text@ =~= decimal_text(n));
        }
        text
    }
}

/// The first step for an identifier: an empty one is refused at once, a line
/// number is looked up as a route, and anything longer is taken to be a trip.
pub open spec fn first_step(identifier: Seq<char>) -> RouteStepView {
    if identifier.len() == 0 {
        RouteStepView::Reply(error_view(ErrorType::RouteInfo, invalid_identifier_text(identifier)))
    } else if is_line_number(identifier) {
        RouteStepView::Ask(StoreQueryView::RouteByShortName(identifier))
    } else {
        RouteStepView::Ask(StoreQueryView::TripById(identifier))
    }
}

/// The step after the store has answered for the line number `identifier`:
/// a trip of the route is asked for, or the line number is refused.
pub open spec fn step_after_route(identifier: Seq<char>, route: Option<Route>) -> RouteStepView {
    match route {
        Some(r) => RouteStepView::Ask(StoreQueryView::TripByRouteId(r.route_id@)),
        None => RouteStepView::Reply(
            error_view(ErrorType::RouteInfo, invalid_line_text(identifier)),
        ),
    }
}

/// The step after the store has answered for a trip: the trip's shape is
/// asked for, or the failure is reported.
pub open spec fn step_after_trip(trip: Option<Trip>) -> RouteStepView {
    match trip {
        Some(t) => RouteStepView::Ask(StoreQueryView::ShapesById(decimal_text(t.shape_id))),
        None => RouteStepView::Reply(error_view(ErrorType::ServerError, no_data_text())),
    }
}

/// The reply after the store has answered for a shape: the nodes by
/// ascending place in the sequence, or the failure.
pub open spec fn reply_after_shapes(nodes: Option<Vec<RouteNode>>, timestamp: u64)
    -> ServerOutputView {
    match nodes {
        Some(route) => ServerOutputView::RouteInformation(
            RouteInformationView { timestamp, route: sorted_nodes(route_views(route@)) },
        ),
        None => error_view(ErrorType::ServerError, no_data_text()),
    }
}

/// The first step in answering a route request. No question is put to the
/// store for an empty identifier.
pub fn route_request(msg: &RouteRequest) -> (step: RouteStep)
    ensures
        step@ == first_step(msg.identifier@),
{
    let length = msg.identifier.as_str().unicode_len();
    if length == 0 {
        let reason = "'".to_owned().concat(msg.identifier.as_str()).concat(
            "' is not a valid identifier",
        );
        RouteStep::Reply(ServerOutput::error_message(ErrorType::RouteInfo, reason))
    } else if length <= 3 {
        RouteStep::Ask(StoreQuery::RouteByShortName(msg.identifier.clone()))
    } else {
        RouteStep::Ask(StoreQuery::TripById(msg.identifier.clone()))
    }
}

/// The step after the store has been asked for the route of a line number.
pub fn route_found(msg: &RouteRequest, route: Option<Route>) -> (step: RouteStep)
    ensures
        step@ == step_after_route(msg.identifier@, route),
{
    match route {
        Some(r) => RouteStep::Ask(StoreQuery::TripByRouteId(r.route_id)),
        None => {
            let reason = "'".to_owned().concat(msg.identifier.as_str()).concat(
                "' is not a valid line number",
            );
            RouteStep::Reply(ServerOutput::error_message(ErrorType::RouteInfo, reason))
        },
    }
}

/// The step after the store has been asked for a trip.
pub fn trip_found(trip: Option<Trip>) -> (step: RouteStep)
    ensures
        step@ == step_after_trip(trip),
{
    match trip {
        Some(t) => RouteStep::Ask(StoreQuery::ShapesById(decimal(t.shape_id))),
        None => RouteStep::Reply(
            ServerOutput::error_message(
                ErrorType::ServerError,
                "Unable to retrieve data".to_owned(),
            ),
        ),
    }
}

/// The reply after the store has been asked for the nodes of a shape. The
/// route in the reply is ordered, in whatever order the nodes are handed in.
pub fn shapes_found(nodes: Option<Vec<RouteNode>>, timestamp: u64) -> (reply: ServerOutput)
    ensures
        reply@ == reply_after_shapes(nodes, timestamp),
        reply@ matches ServerOutputView::RouteInformation(information) ==> in_order(
            information.route,
        ),
{
    match nodes {
        Some(route) => ServerOutput::RouteInformation(
            RouteInformationOutput { timestamp, route: sort_route(&route) },
        ),
        None => ServerOutput::error_message(
            ErrorType::ServerError,
            "Unable to retrieve data".to_owned(),
        ),
    }
}

/// Where a route lookup stands: which answer of the store it waits for.
#[derive(Debug, Clone, Copy, PartialEq, Eq, Structural)]
pub enum RouteLookup {
    AwaitingRoute,
    AwaitingTrip,
    AwaitingShapes,
    Done,
}

/// An answer of the store.
#[derive(Debug, Clone, PartialEq, Eq)]
pub enum StoreAnswer {
    Route(Option<Route>),
    Trip(Option<Trip>),
    Shapes(Option<Vec<RouteNode>>),
}

/// Where a lookup stands once it has taken the step `step`.
pub open spec fn awaiting(step: RouteStepView) -> RouteLookup {
    match step {
        RouteStepView::Ask(StoreQueryView::RouteByShortName(_)) => RouteLookup::AwaitingRoute,
        RouteStepView::Ask(StoreQueryView::RouteById(_)) => RouteLookup::AwaitingRoute,
        RouteStepView::Ask(StoreQueryView::TripByRouteId(_)) => RouteLookup::AwaitingTrip,
        RouteStepView::Ask(StoreQueryView::TripById(_)) => RouteLookup::AwaitingTrip,
        RouteStepView::Ask(StoreQueryView::ShapesById(_)) => RouteLookup::AwaitingShapes,
        RouteStepView::Reply(_) => RouteLookup::Done,
    }
}

/// The step that a lookup for `identifier` takes on an answer of the store.
/// An answer that the lookup was not waiting for counts as a failure of the
/// store.
pub open spec fn next_step(
    state: RouteLookup,
    identifier: Seq<char>,
    answer: StoreAnswer,
    timestamp: u64,
) -> RouteStepView {
    match (state, answer) {
        (RouteLookup::AwaitingRoute, StoreAnswer::Route(route)) => step_after_route(
            identifier,
            route,
        ),
        (RouteLookup::AwaitingTrip, StoreAnswer::Trip(trip)) => step_after_trip(trip),
        (RouteLookup::AwaitingShapes, StoreAnswer::Shapes(nodes)) => RouteStepView::Reply(
            reply_after_shapes(nodes, timestamp),
        ),
        _ => RouteStepView::Reply(error_view(ErrorType::ServerError, no_data_text())),
    }
}

/// Where a lookup stands after `step`.
fn state_after(step: &RouteStep) -> (state: RouteLookup)
    ensures
        state == awaiting(step@),
{
    match step {
        RouteStep::Ask(StoreQuery::RouteByShortName(_)) => RouteLookup::AwaitingRoute,
        RouteStep::Ask(StoreQuery::RouteById(_)) => RouteLookup::AwaitingRoute,
        RouteStep::Ask(StoreQuery::TripByRouteId(_)) => RouteLookup::AwaitingTrip,
        RouteStep::Ask(StoreQuery::TripById(_)) => RouteLookup::AwaitingTrip,
        RouteStep::Ask(StoreQuery::ShapesById(_)) => RouteLookup::AwaitingShapes,
        RouteStep::Reply(_) => RouteLookup::Done,
    }
}

/// Starts the lookup for a route request: the first step, and where the
/// lookup stands after it.
pub fn start(msg: &RouteRequest) -> (r: (RouteLookup, RouteStep))
    ensures
        r.1@ == first_step(msg.identifier@),
        r.0 == awaiting(r.1@),
{
    let step = route_request(msg);
    (state_after(&step), step)
}

/// Takes an answer of the store at the time `timestamp`: the next step, and
/// where the lookup stands after it.
pub fn advance(state: RouteLookup, msg: &RouteRequest, answer: StoreAnswer, timestamp: u64) -> (r: (
    RouteLookup,
    RouteStep,
))
    ensures
        r.1@ == next_step(state, msg.identifier@, answer, timestamp),
        r.0 == awaiting(r.1@),
{
    let step = match state {
        RouteLookup::AwaitingRoute => match answer {
            StoreAnswer::Route(route) => route_found(msg, route),
            _ => RouteStep::Reply(shapes_found(None, timestamp)),
        },
        RouteLookup::AwaitingTrip => match answer {
            StoreAnswer::Trip(trip) => trip_found(trip),
            _ => RouteStep::Reply(shapes_found(None, timestamp)),
        },
        RouteLookup::AwaitingShapes => match answer {
            StoreAnswer::Shapes(nodes) => RouteStep::Reply(shapes_found(nodes, timestamp)),
            _ => RouteStep::Reply(shapes_found(None, timestamp)),
        },
        RouteLookup::Done => RouteStep::Reply(shapes_found(None, timestamp)),
    };
    (state_after(&step), step)
}

/// A lookup asks the store at most three questions: whatever the store
/// answers, the third answer ends it.
pub proof fn lemma_lookup_ends(
    identifier: Seq<char>,
    first: StoreAnswer,
    second: StoreAnswer,
    third: StoreAnswer,
    timestamp: u64,
)
    ensures
        ({
            let s0 = awaiting(first_step(identifier));
            let s1 = awaiting(next_step(s0, identifier, first, timestamp));
            let s2 = awaiting(next_step(s1, identifier, second, timestamp));
            let s3 = awaiting(next_step(s2, identifier, third, timestamp));
            s3 == RouteLookup::Done
        }),
{
}

/// Every reply that carries a route carries it in order: whatever the store
/// answers, no node comes before a node with a smaller place in the sequence.
pub proof fn lemma_replies_are_ordered(
    state: RouteLookup,
    identifier: Seq<char>,
    answer: StoreAnswer,
    timestamp: u64,
)
    ensures
        next_step(state, identifier, answer, timestamp) matches RouteStepView::Reply(
            ServerOutputView::RouteInformation(information),
        ) ==> in_order(information.route),
{
    match (state, answer) {
        (RouteLookup::AwaitingShapes, StoreAnswer::Shapes(Some(route))) => {
            lemma_sorted_nodes(route_views(route@));
        },
        _ => {},
    }
}

} // verus!
