//! Everything the server can send to a client.

use vstd::prelude::*;
use crate::gtfs::transit_realtime::Position;

verus! {

/// The classes of failure that are reported to a client.
#[derive(Debug, Clone, Copy, PartialEq, Eq, Structural)]
pub enum ErrorType {
    ServerError,
    UnknownMessage,
    BadData,
    Position,
    LineInfo,
    RouteInfo,
    Reserve,
    Unreserve,
}

/// The characters of an optional string.
pub open spec fn label_view(label: Option<String>) -> Option<Seq<char>> {
    match label {
        Some(s) => Some(s@),
        None => None,
    }
}

/// A copy of an optional string.
pub fn clone_label(label: &Option<String>) -> (r: Option<String>)
    ensures
        r == *label,
{
    match label {
        Some(s) => Some(s.clone()),
        None => None,
    }
}

/// A structured error: its class and a readable reason.
#[derive(Debug, PartialEq, Eq)]
pub struct ErrorOutput {
    pub error_type: ErrorType,
    pub error_message: String,
}

/// What an [`ErrorOutput`] says.
pub struct ErrorOutputView {
    pub error_type: ErrorType,
    pub error_message: Seq<char>,
}

impl View for ErrorOutput {
    type V = ErrorOutputView;

    open spec fn view(&self) -> ErrorOutputView {
        ErrorOutputView { error_type: self.error_type, error_message: self.error_message@ }
    }
}

impl Clone for ErrorOutput {
    fn clone(&self) -> (r: Self)
        ensures
            r == *self,
    {
        ErrorOutput { error_type: self.error_type, error_message: self.error_message.clone() }
    }
}

/// A vehicle as it is reported to clients.
#[derive(Debug, PartialEq, Eq)]
pub struct Vehicle {
    pub descriptor_id: String,
    pub line: Option<String>,
    pub trip_id: Option<String>,
    pub position: Position,
}

/// What a [`Vehicle`] says.
pub struct VehicleView {
    pub descriptor_id: Seq<char>,
    pub line: Option<Seq<char>>,
    pub trip_id: Option<Seq<char>>,
    pub position: Position,
}

impl View for Vehicle {
    type V = VehicleView;

    open spec fn view(&self) -> VehicleView {
        VehicleView {
            descriptor_id: self.descriptor_id@,
            line: label_view(self.line),
            trip_id: label_view(self.trip_id),
            position: self.position,
        }
    }
}

impl Clone for Vehicle {
    fn clone(&self) -> (r: Self)
        ensures
            r == *self,
    {
        Vehicle {
            descriptor_id: self.descriptor_id.clone(),
            line: clone_label(&self.line),
            trip_id: clone_label(&self.trip_id),
            position: self.position,
        }
    }
}

/// What a list of vehicles says, in order.
pub open spec fn vehicle_views(vehicles: Seq<Vehicle>) -> Seq<VehicleView> {
    vehicles.map_values(|v: Vehicle| v@)
}

/// The vehicles visible to one client at one moment. The timestamp is in
/// seconds since the Unix epoch.
#[derive(Debug, PartialEq, Eq)]
pub struct VehiclePositionsOutput {
    pub timestamp: u64,
    pub vehicles: Vec<Vehicle>,
}

/// What a [`VehiclePositionsOutput`] says.
pub struct VehiclePositionsView {
    pub timestamp: u64,
    pub vehicles: Seq<VehicleView>,
}

impl View for VehiclePositionsOutput {
    type V = VehiclePositionsView;

    open spec fn view(&self) -> VehiclePositionsView {
        VehiclePositionsView {
            timestamp: self.timestamp,
            vehicles: vehicle_views(self.vehicles@),
        }
    }
}

/// A copy of a list of vehicles.
pub fn clone_vehicles(vehicles: &Vec<Vehicle>) -> (r: Vec<Vehicle>)
    ensures
        r@ == vehicles@,
{
    let mut r: Vec<Vehicle> = Vec::new();
    let mut i: usize = 0;
    while i < vehicles.len()
        invariant
            i <= vehicles.len(),
            r@ == vehicles@.take(i as int),
        decreases vehicles.len() - i,
    {
        r.push(vehicles[i].clone());
        proof {
            assert(vehicles@.take(i + 1) =~= vehicles@.take(i as int).push(vehicles@[i as int]));
        }
        i += 1;
    }
    proof {
        assert(vehicles@.take(vehicles.len() as int) =~= vehicles@);
    }
    r
}

impl Clone for VehiclePositionsOutput {
    fn clone(&self) -> (r: Self)
        ensures
            r.timestamp == self.timestamp,
            r.vehicles@ == self.vehicles@,
    {
        VehiclePositionsOutput {
            timestamp: self.timestamp,
            vehicles: clone_vehicles(&self.vehicles),
        }
    }
}

/// How full a vehicle is.
#[derive(Debug, Clone, Copy, PartialEq, Eq, Structural)]
pub struct PassengerInformationOutput {
    pub capacity: i32,
    pub passengers: i32,
}

/// One node of a route's geometry.
#[derive(Debug, PartialEq, Eq)]
pub struct RouteNode {
    pub lat: String,
    pub lng: String,
    pub sequence: i32,
}

/// What a [`RouteNode`] says.
pub struct RouteNodeView {
    pub lat: Seq<char>,
    pub lng: Seq<char>,
    pub sequence: i32,
}

impl View for RouteNode {
    type V = RouteNodeView;

    open spec fn view(&self) -> RouteNodeView {
        RouteNodeView { lat: self.lat@, lng: self.lng@, sequence: self.sequence }
    }
}

impl Clone for RouteNode {
    fn clone(&self) -> (r: Self)
        ensures
            r == *self,
    {
        RouteNode { lat: self.lat.clone(), lng: self.lng.clone(), sequence: self.sequence }
    }
}

/// What a list of route nodes says, in order.
pub open spec fn route_views(nodes: Seq<RouteNode>) -> Seq<RouteNodeView> {
    nodes.map_values(|n: RouteNode| n@)
}

/// A copy of a list of route nodes.
pub fn clone_route(nodes: &Vec<RouteNode>) -> (r: Vec<RouteNode>)
    ensures
        r@ == nodes@,
{
    let mut r: Vec<RouteNode> = Vec::new();
    let mut i: usize = 0;
    while i < nodes.len()
        invariant
            i <= nodes.len(),
            r@ == nodes@.take(i as int),
        decreases nodes.len() - i,
    {
        r.push(nodes[i].clone());
        proof {
            assert(nodes@.take(i + 1) =~= nodes@.take(i as int).push(nodes@[i as int]));
        }
        i += 1;
    }
    proof {
        assert(nodes@.take(nodes.len() as int) =~= nodes@);
    }
    r
}

/// The geometry of a route, in order. The timestamp is in seconds since the
/// Unix epoch.
#[derive(Debug, PartialEq, Eq)]
pub struct RouteInformationOutput {
    pub timestamp: u64,
    pub route: Vec<RouteNode>,
}

/// What a [`RouteInformationOutput`] says.
pub struct RouteInformationView {
    pub timestamp: u64,
    pub route: Seq<RouteNodeView>,
}

impl View for RouteInformationOutput {
    type V = RouteInformationView;

    open spec fn view(&self) -> RouteInformationView {
        RouteInformationView { timestamp: self.timestamp, route: route_views(self.route@) }
    }
}

impl Clone for RouteInformationOutput {
    fn clone(&self) -> (r: Self)
        ensures
            r.timestamp == self.timestamp,
            r.route@ == self.route@,
    {
        RouteInformationOutput { timestamp: self.timestamp, route: clone_route(&self.route) }
    }
}

/// A stop and the lines that serve it.
#[derive(Debug, Clone, PartialEq, Eq)]
pub struct Stop {
    pub id: String,
    pub lines: Vec<String>,
    pub position: Position,
}

/// A line with its stops.
#[derive(Debug, Clone, PartialEq, Eq)]
pub struct Line {
    pub timestamp: String,
    pub line: String,
    pub vehicles: u32,
    pub stops: Vec<Stop>,
}

/// A point in microdegrees.
#[derive(Debug, Clone, Copy, PartialEq, Eq, Structural)]
pub struct Coordinate {
    pub lat: i32,
    pub lng: i32,
}

/// Every message the server can send.
#[derive(Debug, PartialEq, Eq)]
pub enum ServerOutput {
    Error(ErrorOutput),
    VehiclePositions(VehiclePositionsOutput),
    PassengerInformation(PassengerInformationOutput),
    RouteInformation(RouteInformationOutput),
}

/// What a [`ServerOutput`] says.
pub enum ServerOutputView {
    Error(ErrorOutputView),
    VehiclePositions(VehiclePositionsView),
    PassengerInformation(PassengerInformationOutput),
    RouteInformation(RouteInformationView),
}

impl View for ServerOutput {
    type V = ServerOutputView;

    open spec fn view(&self) -> ServerOutputView {
        match *self {
            ServerOutput::Error(e) => ServerOutputView::Error(e@),
            ServerOutput::VehiclePositions(p) => ServerOutputView::VehiclePositions(p@),
            ServerOutput::PassengerInformation(p) => ServerOutputView::PassengerInformation(p),
            ServerOutput::RouteInformation(r) => ServerOutputView::RouteInformation(r@),
        }
    }
}

impl Clone for ServerOutput {
    fn clone(&self) -> (r: Self)
        ensures
            r@ == self@,
    {
        match self {
            ServerOutput::Error(e) => ServerOutput::Error(e.clone()),
            ServerOutput::VehiclePositions(p) => ServerOutput::VehiclePositions(p.clone()),
            ServerOutput::PassengerInformation(p) => ServerOutput::PassengerInformation(*p),
            ServerOutput::RouteInformation(r) => ServerOutput::RouteInformation(r.clone()),
        }
    }
}

/// The error message of the given class and reason, as a view.
pub open spec fn error_view(error_type: ErrorType, error_message: Seq<char>) -> ServerOutputView {
    ServerOutputView::Error(ErrorOutputView { error_type, error_message })
}

impl ServerOutput {
    /// The error message of the given class and reason.
    pub fn error_message(error_type: ErrorType, error_message: String) -> (r: ServerOutput)
        ensures
            r == ServerOutput::Error(ErrorOutput { error_type, error_message }),
            r@ == error_view(error_type, error_message@),
    {
        ServerOutput::Error(ErrorOutput { error_type, error_message })
    }
}

} // verus!
