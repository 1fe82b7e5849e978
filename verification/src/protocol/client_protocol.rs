//! Everything a client can send to the server.

use vstd::prelude::*;

verus! {

/// An identifier of a line or of a trip.
#[derive(Debug, Clone, PartialEq, Eq)]
pub struct LineInformation {
    pub line: String,
}

/// A point as a list of coordinates in microdegrees.
#[derive(Debug, Clone, PartialEq, Eq)]
pub struct GeoPositionPoint {
    pub position_type: String,
    pub coordinates: Vec<i32>,
}

/// The area a client is interested in: a centre and the greatest distance
/// from it, in millimetres.
#[derive(Debug, PartialEq, Eq)]
pub struct GeoPosition {
    pub max_distance: u64,
    pub position: GeoPositionPoint,
}

/// What a [`GeoPosition`] says.
pub struct GeoPositionView {
    pub max_distance: u64,
    pub position_type: Seq<char>,
    pub coordinates: Seq<i32>,
}

impl View for GeoPosition {
    type V = GeoPositionView;

    open spec fn view(&self) -> GeoPositionView {
        GeoPositionView {
            max_distance: self.max_distance,
            position_type: self.position.position_type@,
            coordinates: self.position.coordinates@,
        }
    }
}

impl Clone for GeoPosition {
    fn clone(&self) -> (r: Self)
        ensures
            r@ == self@,
    {
        GeoPosition {
            max_distance: self.max_distance,
            position: GeoPositionPoint {
                position_type: self.position.position_type.clone(),
                coordinates: self.position.coordinates.clone(),
            },
        }
    }
}

/// What an optional [`GeoPosition`] says.
pub open spec fn filter_view(filter: Option<GeoPosition>) -> Option<GeoPositionView> {
    match filter {
        Some(g) => Some(g@),
        None => None,
    }
}

/// The identifier of a vehicle.
#[derive(Debug, Clone, PartialEq, Eq)]
pub struct VehicleDescriptor {
    pub descriptor_id: String,
}

/// Every request a client can make.
#[derive(Debug, Clone, PartialEq, Eq)]
pub enum ClientInput {
    GetLineInformation(LineInformation),
    GetRouteInformation(LineInformation),
    GeoPositionUpdate(GeoPosition),
    GetPassengerInformation(VehicleDescriptor),
    ReserveSeat(VehicleDescriptor),
    UnreserveSeat,
}

/// What a [`ClientInput`] says.
pub enum ClientInputView {
    GetLineInformation(Seq<char>),
    GetRouteInformation(Seq<char>),
    GeoPositionUpdate(GeoPositionView),
    GetPassengerInformation(Seq<char>),
    ReserveSeat(Seq<char>),
    UnreserveSeat,
}

impl View for ClientInput {
    type V = ClientInputView;

    open spec fn view(&self) -> ClientInputView {
        match *self {
            ClientInput::GetLineInformation(l) => ClientInputView::GetLineInformation(l.line@),
            ClientInput::GetRouteInformation(l) => ClientInputView::GetRouteInformation(l.line@),
            ClientInput::GeoPositionUpdate(g) => ClientInputView::GeoPositionUpdate(g@),
            ClientInput::GetPassengerInformation(v) => ClientInputView::GetPassengerInformation(
                v.descriptor_id@,
            ),
            ClientInput::ReserveSeat(v) => ClientInputView::ReserveSeat(v.descriptor_id@),
            ClientInput::UnreserveSeat => ClientInputView::UnreserveSeat,
        }
    }
}

} // verus!
