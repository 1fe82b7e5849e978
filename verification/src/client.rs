//! What the hub remembers of one connected client.

use vstd::prelude::*;
use crate::protocol::client_protocol::{filter_view, GeoPosition, GeoPositionView};
use crate::protocol::server_protocol::label_view;

verus! {

/// The record of one session.
#[derive(Debug, Clone, PartialEq, Eq)]
pub struct ClientData {
    /// The session's identifier.
    pub id: u128,
    /// The area the client last asked about, if any.
    pub position: Option<GeoPosition>,
    /// The vehicle on which the client holds a seat, if any.
    pub reserved_seat: Option<String>,
    /// The vehicle the client last asked passenger information about, if any.
    pub last_descriptor_request: Option<String>,
}

/// What a [`ClientData`] says.
pub struct ClientDataView {
    pub id: u128,
    pub position: Option<GeoPositionView>,
    pub reserved_seat: Option<Seq<char>>,
    pub last_descriptor_request: Option<Seq<char>>,
}

impl View for ClientData {
    type V = ClientDataView;

    open spec fn view(&self) -> ClientDataView {
        ClientDataView {
            id: self.id,
            position: filter_view(self.position),
            reserved_seat: label_view(self.reserved_seat),
            last_descriptor_request: label_view(self.last_descriptor_request),
        }
    }
}

/// The record of a session that has just connected.
pub open spec fn fresh_client(id: u128) -> ClientDataView {
    ClientDataView { id, position: None, reserved_seat: None, last_descriptor_request: None }
}

impl ClientData {
    /// A client with no position, no reserved seat and no earlier request.
    pub fn new(id: u128) -> (r: Self)
        ensures
            r@ == fresh_client(id),
    {
        ClientData { id, position: None, reserved_seat: None, last_descriptor_request: None }
    }

    /// Replaces the area the client is interested in.
    pub fn update_position(&mut self, position: GeoPosition)
        ensures
            final(self)@ == (ClientDataView { position: Some(position@), ..old(self)@ }),
    {
        self.position = Some(position);
    }

    /// Records the vehicle the client last asked about.
    pub fn update_last_descriptor(&mut self, descriptor_id: String)
        ensures
            final(self)@ == (ClientDataView {
                last_descriptor_request: Some(descriptor_id@),
                ..old(self)@
            }),
    {
        self.last_descriptor_request = Some(descriptor_id);
    }
}

} // verus!
