//! The requests a session hands to the hub, and the frames the hub hands back.

use vstd::prelude::*;
use crate::protocol::client_protocol::{GeoPosition, GeoPositionView};
use crate::protocol::server_protocol::{ServerOutput, ServerOutputView};

verus! {

/// A text frame on its way to a client.
#[derive(Debug, Clone, PartialEq, Eq)]
pub struct WsMessage(pub String);

/// The signal that a new set of vehicle positions should be sent out.
#[derive(Debug, Clone, Copy, PartialEq, Eq, Structural)]
pub struct EchoPositions;

/// A session has been established.
#[derive(Debug, Clone, Copy, PartialEq, Eq, Structural)]
pub struct Connect {
    pub self_id: u128,
}

/// A session has ended.
#[derive(Debug, Clone, Copy, PartialEq, Eq, Structural)]
pub struct Disconnect {
    pub self_id: u128,
}

/// A client has moved its map.
#[derive(Debug, Clone, PartialEq, Eq)]
pub struct PositionUpdate {
    pub self_id: u128,
    pub position: GeoPosition,
}

/// A client asks for the geometry of a route.
#[derive(Debug, Clone, PartialEq, Eq)]
pub struct RouteRequest {
    pub self_id: u128,
    pub identifier: String,
}

/// A client asks how full a vehicle is.
#[derive(Debug, Clone, PartialEq, Eq)]
pub struct PassengerInfo {
    pub self_id: u128,
    pub descriptor_id: String,
}

/// A client asks for a seat on a vehicle.
#[derive(Debug, Clone, PartialEq, Eq)]
pub struct ReserveSeat {
    pub self_id: u128,
    pub descriptor_id: String,
}

/// A client gives its seat back.
#[derive(Debug, Clone, Copy, PartialEq, Eq, Structural)]
pub struct UnreserveSeat {
    pub self_id: u128,
}

/// Every request a session can hand to the hub.
#[derive(Debug, Clone, PartialEq, Eq)]
pub enum LobbyRequest {
    Connect(Connect),
    Disconnect(Disconnect),
    PositionUpdate(PositionUpdate),
    RouteRequest(RouteRequest),
    PassengerInfo(PassengerInfo),
    ReserveSeat(ReserveSeat),
    UnreserveSeat(UnreserveSeat),
}

/// What a [`LobbyRequest`] says: the session it comes from and what it asks.
pub enum LobbyRequestView {
    Connect(u128),
    Disconnect(u128),
    PositionUpdate(u128, GeoPositionView),
    RouteRequest(u128, Seq<char>),
    PassengerInfo(u128, Seq<char>),
    ReserveSeat(u128, Seq<char>),
    UnreserveSeat(u128),
}

impl View for LobbyRequest {
    type V = LobbyRequestView;

    open spec fn view(&self) -> LobbyRequestView {
        match *self {
            LobbyRequest::Connect(m) => LobbyRequestView::Connect(m.self_id),
            LobbyRequest::Disconnect(m) => LobbyRequestView::Disconnect(m.self_id),
            LobbyRequest::PositionUpdate(m) => LobbyRequestView::PositionUpdate(
                m.self_id,
                m.position@,
            ),
            LobbyRequest::RouteRequest(m) => LobbyRequestView::RouteRequest(
                m.self_id,
                m.identifier@,
            ),
            LobbyRequest::PassengerInfo(m) => LobbyRequestView::PassengerInfo(
                m.self_id,
                m.descriptor_id@,
            ),
            LobbyRequest::ReserveSeat(m) => LobbyRequestView::ReserveSeat(
                m.self_id,
                m.descriptor_id@,
            ),
            LobbyRequest::UnreserveSeat(m) => LobbyRequestView::UnreserveSeat(m.self_id),
        }
    }
}

/// A message for one session.
#[derive(Debug, Clone, PartialEq, Eq)]
pub struct Outbound {
    pub to: u128,
    pub message: ServerOutput,
}

/// What an [`Outbound`] says.
pub struct OutboundView {
    pub to: u128,
    pub message: ServerOutputView,
}

impl View for Outbound {
    type V = OutboundView;

    open spec fn view(&self) -> OutboundView {
        OutboundView { to: self.to, message: self.message@ }
    }
}

/// What a list of outbound messages says, in order.
pub open spec fn outbound_views(out: Seq<Outbound>) -> Seq<OutboundView> {
    out.map_values(|o: Outbound| o@)
}

} // verus!
