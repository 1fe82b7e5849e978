//! The hub: the one owner of the session table and of the reservation ledger.
//!
//! Every operation takes one request, changes the state, and returns the
//! messages that are to be sent because of it. Nothing here sends anything:
//! the caller delivers what is returned.

use std::collections::HashMap;
use vstd::prelude::*;
use vstd::hash_map::StringHashMap;
use vstd::std_specs::hash::spec_keys_iter;
use vstd::std_specs::iter::IteratorSpec;
use vstd::string::StringExecFns;
use crate::client::{fresh_client, ClientData, ClientDataView};
use crate::fanout::{
    fanned, fans_out, lemma_fanned_done, lemma_fanned_push, lemma_fanned_skip, lemma_fanned_start,
};
use crate::messages::{
    outbound_views, Connect, Disconnect, LobbyRequest, LobbyRequestView, Outbound, OutboundView,
    PassengerInfo, PositionUpdate, ReserveSeat, RouteRequest, UnreserveSeat,
};
use crate::protocol::client_protocol::{filter_view, GeoPosition};
use crate::protocol::server_protocol::{
    error_view, vehicle_views, ErrorType, PassengerInformationOutput, ServerOutput,
    ServerOutputView, Vehicle, VehiclePositionsOutput, VehiclePositionsView, VehicleView,
};
use crate::random::{gen_range, thread_rng};
use crate::route::{
    awaiting, first_step, start, RouteLookup, RouteStep, RouteStepView, StoreQuery, StoreQueryView,
};
use crate::state::{
    after_connect, after_disconnect, after_passenger_info, after_position, after_reserve,
    after_unreserve, consistent, entry_valid, lemma_new_entry_keeps_consistent,
    lemma_release_keeps_consistent, lemma_remove_keeps_consistent, lemma_reserve_keeps_consistent,
    lemma_write_keeps_consistent, released, reserve_refusal, taken, watchers, with_seat, Ledger,
    Refusal, Sessions,
};
use crate::util::{visible_subset, visible_vehicles};

verus! {

/// The range from which the occupancy and the capacity of a vehicle are drawn
/// when it is first asked about. Both ranges are half-open.
#[derive(Debug, Clone, Copy, PartialEq, Eq, Structural)]
pub struct SeatRanges {
    pub passengers_low: i32,
    pub passengers_high: i32,
    pub capacity_low: i32,
    pub capacity_high: i32,
}

impl SeatRanges {
    /// Neither range is empty, and every draw gives a valid entry.
    pub open spec fn wf(&self) -> bool {
        &&& 0 <= self.passengers_low < self.passengers_high
        &&& self.passengers_high - 1 <= self.capacity_low < self.capacity_high
    }

    /// Whether `entry` can be drawn from these ranges.
    pub open spec fn admits(&self, entry: PassengerInformationOutput) -> bool {
        &&& self.passengers_low <= entry.passengers < self.passengers_high
        &&& self.capacity_low <= entry.capacity < self.capacity_high
    }

    /// Whether the ranges are well formed.
    pub fn is_wf(&self) -> (r: bool)
        ensures
            r == self.wf(),
    {
        0 <= self.passengers_low && self.passengers_low < self.passengers_high
            && self.passengers_high - 1 <= self.capacity_low && self.capacity_low
            < self.capacity_high
    }
}

/// Between none and fourteen passengers, and room for twenty to thirty-four.
pub open spec fn default_ranges() -> SeatRanges {
    SeatRanges { passengers_low: 0, passengers_high: 15, capacity_low: 20, capacity_high: 35 }
}

/// The message that tells how full a vehicle is, whoever receives it.
pub open spec fn passenger_update(entry: PassengerInformationOutput) -> spec_fn(u128)
    -> ServerOutputView {
    |to: u128| ServerOutputView::PassengerInformation(entry)
}

/// The same message for every session.
pub open spec fn same_for_all(message: ServerOutputView) -> spec_fn(u128) -> ServerOutputView {
    |to: u128| message
}

/// The reason given when a seat is asked for on a vehicle that is full.
pub open spec fn full_text(descriptor: Seq<char>) -> Seq<char> {
    "The bus with descriptor id '"@ + descriptor + "' is full"@
}

/// The reason given when a seat is asked for on a vehicle the ledger does not
/// know.
pub open spec fn unknown_vehicle_text(descriptor: Seq<char>) -> Seq<char> {
    "A bus with descriptor id '"@ + descriptor + "' does not exist."@
}

/// The reason given when a session that holds a seat asks for another.
pub open spec fn already_reserved_text() -> Seq<char> {
    "Cannot reserve since there is already an active reservation."@
}

/// The reason given when a session that holds no seat gives one back.
pub open spec fn nothing_reserved_text() -> Seq<char> {
    "Cannot unreserve since there is no active reservation."@
}

/// A single message for the session `to`.
pub open spec fn only(to: u128, message: ServerOutputView) -> Seq<OutboundView> {
    seq![OutboundView { to, message }]
}

/// The reason given to a session whose seat request is refused.
pub open spec fn refusal_text(refusal: Refusal, descriptor: Seq<char>) -> Seq<char> {
    match refusal {
        Refusal::UnknownVehicle => unknown_vehicle_text(descriptor),
        Refusal::Full => full_text(descriptor),
        Refusal::AlreadyReserved => already_reserved_text(),
    }
}

/// What a disconnect does: the state changes as [`after_disconnect`] says,
/// and where a seat was given back, the sessions that watch the vehicle are
/// told its new occupancy. Nothing else is sent.
pub open spec fn disconnect_post(
    s0: Sessions,
    l0: Ledger,
    s1: Sessions,
    l1: Ledger,
    out: Seq<OutboundView>,
    id: u128,
) -> bool {
    &&& (s1, l1) == after_disconnect(s0, l0, id)
    &&& if s0.contains_key(id) {
        match s0[id].reserved_seat {
            Some(d) => fans_out(out, watchers(s1, d), passenger_update(released(l0[d]))),
            None => out.len() == 0,
        }
    } else {
        out.len() == 0
    }
}

/// What a passenger-information request does, where `fresh` is the entry to
/// use for a vehicle the ledger does not know yet: the state changes as
/// [`after_passenger_info`] says, and a connected session is told the entry
/// of the vehicle. Nothing is sent for a session that is not connected.
pub open spec fn passenger_info_post(
    s0: Sessions,
    l0: Ledger,
    s1: Sessions,
    l1: Ledger,
    out: Seq<OutboundView>,
    id: u128,
    d: Seq<char>,
    fresh: PassengerInformationOutput,
) -> bool {
    &&& (s1, l1) == after_passenger_info(s0, l0, id, d, fresh)
    &&& if s0.contains_key(id) {
        out == only(id, ServerOutputView::PassengerInformation(l1[d]))
    } else {
        out.len() == 0
    }
}

/// What a seat request does: the state changes as [`after_reserve`] says.
/// Nothing is sent for a session that is not connected. A refused session is
/// sent the reason. Otherwise the sessions that watch the vehicle are told
/// its new occupancy.
pub open spec fn reserve_post(
    s0: Sessions,
    l0: Ledger,
    s1: Sessions,
    l1: Ledger,
    out: Seq<OutboundView>,
    id: u128,
    d: Seq<char>,
) -> bool {
    &&& (s1, l1) == after_reserve(s0, l0, id, d)
    &&& if !s0.contains_key(id) {
        out.len() == 0
    } else {
        match reserve_refusal(s0, l0, id, d) {
            Some(refusal) => out == only(
                id,
                error_view(ErrorType::Reserve, refusal_text(refusal, d)),
            ),
            None => fans_out(out, watchers(s1, d), passenger_update(taken(l0[d]))),
        }
    }
}

/// What giving a seat back does: the state changes as [`after_unreserve`]
/// says. Nothing is sent for a session that is not connected. A session that
/// holds no seat is sent the reason. Otherwise the sessions that watch the
/// vehicle are told its new occupancy.
pub open spec fn unreserve_post(
    s0: Sessions,
    l0: Ledger,
    s1: Sessions,
    l1: Ledger,
    out: Seq<OutboundView>,
    id: u128,
) -> bool {
    &&& (s1, l1) == after_unreserve(s0, l0, id)
    &&& if !s0.contains_key(id) {
        out.len() == 0
    } else {
        match s0[id].reserved_seat {
            Some(d) => fans_out(out, watchers(s1, d), passenger_update(released(l0[d]))),
            None => out == only(id, error_view(ErrorType::Unreserve, nothing_reserved_text())),
        }
    }
}

/// A list that holds the one message `message` for the session `to`.
fn single(to: u128, message: ServerOutput) -> (out: Vec<Outbound>)
    ensures
        outbound_views(out@) == only(to, message@),
{
    let mut out: Vec<Outbound> = Vec::new();
    out.push(Outbound { to, message });
    proof {
        assert(outbound_views(out@) =~= only(to, message@));
    }
    out
}

/// The distances handed in for the session `id`; none, where there is no row
/// for it.
pub open spec fn distance_row(distances: Map<u128, Vec<u64>>, id: u128) -> Seq<u64> {
    if distances.contains_key(id) {
        distances[id]@
    } else {
        Seq::empty()
    }
}

/// The vehicles that the session `id` sees: none without a position filter,
/// else those that pass the filter.
pub open spec fn seen_by(
    sessions: Sessions,
    id: u128,
    vehicles: Seq<VehicleView>,
    distances: Map<u128, Vec<u64>>,
) -> Seq<VehicleView> {
    match sessions[id].position {
        Some(geo) => visible_subset(geo.max_distance, vehicles, distance_row(distances, id)),
        None => Seq::empty(),
    }
}

/// The sessions that see at least one vehicle.
pub open spec fn position_recipients(
    sessions: Sessions,
    vehicles: Seq<VehicleView>,
    distances: Map<u128, Vec<u64>>,
) -> Set<u128> {
    Set::new(
        |id: u128| sessions.contains_key(id) && seen_by(sessions, id, vehicles, distances).len() > 0,
    )
}

/// The message that tells a session which vehicles it sees.
pub open spec fn positions_update(
    sessions: Sessions,
    vehicles: Seq<VehicleView>,
    distances: Map<u128, Vec<u64>>,
    timestamp: u64,
) -> spec_fn(u128) -> ServerOutputView {
    |id: u128|
        ServerOutputView::VehiclePositions(
            VehiclePositionsView {
                timestamp,
                vehicles: seen_by(sessions, id, vehicles, distances),
            },
        )
}

/// What the hub answers to a request: messages to send, or a lookup in the
/// store to carry out before anything can be sent.
#[derive(Debug, Clone, PartialEq, Eq)]
pub enum LobbyReply {
    Send(Vec<Outbound>),
    Lookup(RouteRequest, RouteLookup, StoreQuery),
}

/// What a [`LobbyReply`] says.
pub enum LobbyReplyView {
    Send(Seq<OutboundView>),
    Lookup(u128, Seq<char>, RouteLookup, StoreQueryView),
}

impl View for LobbyReply {
    type V = LobbyReplyView;

    open spec fn view(&self) -> LobbyReplyView {
        match *self {
            LobbyReply::Send(out) => LobbyReplyView::Send(outbound_views(out@)),
            LobbyReply::Lookup(msg, state, query) => LobbyReplyView::Lookup(
                msg.self_id,
                msg.identifier@,
                state,
                query@,
            ),
        }
    }
}

/// What the hub does with a route request of the session `id`: its state is
/// left alone. A request that needs the store starts a lookup. A request
/// that is refused at once is answered to the session, where it is
/// connected.
pub open spec fn route_request_post(
    s0: Sessions,
    l0: Ledger,
    s1: Sessions,
    l1: Ledger,
    reply: LobbyReplyView,
    id: u128,
    identifier: Seq<char>,
) -> bool {
    &&& (s1, l1) == (s0, l0)
    &&& match first_step(identifier) {
        RouteStepView::Ask(query) => reply == LobbyReplyView::Lookup(
            id,
            identifier,
            awaiting(first_step(identifier)),
            query,
        ),
        RouteStepView::Reply(message) => reply == LobbyReplyView::Send(
            if s0.contains_key(id) {
                only(id, message)
            } else {
                Seq::empty()
            },
        ),
    }
}

/// What the hub does with a request, where `fresh` is the entry used for a
/// vehicle that is asked about for the first time.
pub open spec fn handle_post(
    s0: Sessions,
    l0: Ledger,
    s1: Sessions,
    l1: Ledger,
    reply: LobbyReplyView,
    request: LobbyRequestView,
    fresh: PassengerInformationOutput,
) -> bool {
    match request {
        LobbyRequestView::Connect(id) => (s1, l1) == after_connect(s0, l0, id) && reply
            == LobbyReplyView::Send(Seq::empty()),
        LobbyRequestView::Disconnect(id) => reply matches LobbyReplyView::Send(out)
            && disconnect_post(s0, l0, s1, l1, out, id),
        LobbyRequestView::PositionUpdate(id, position) => (s1, l1) == after_position(
            s0,
            l0,
            id,
            position,
        ) && reply == LobbyReplyView::Send(Seq::empty()),
        LobbyRequestView::RouteRequest(id, identifier) => route_request_post(
            s0,
            l0,
            s1,
            l1,
            reply,
            id,
            identifier,
        ),
        LobbyRequestView::PassengerInfo(id, d) => reply matches LobbyReplyView::Send(out)
            && passenger_info_post(s0, l0, s1, l1, out, id, d, fresh),
        LobbyRequestView::ReserveSeat(id, d) => reply matches LobbyReplyView::Send(out)
            && reserve_post(s0, l0, s1, l1, out, id, d),
        LobbyRequestView::UnreserveSeat(id) => reply matches LobbyReplyView::Send(out)
            && unreserve_post(s0, l0, s1, l1, out, id),
    }
}

/// The entry that the ledger `ledger` holds for the vehicle that a
/// passenger-information request asks about; of no meaning for any other
/// request.
pub open spec fn entry_asked(ledger: Ledger, request: LobbyRequestView)
    -> PassengerInformationOutput {
    match request {
        LobbyRequestView::PassengerInfo(_, d) => ledger[d],
        _ => PassengerInformationOutput { capacity: 0, passengers: 0 },
    }
}

/// A list that holds no message.
fn nothing() -> (out: Vec<Outbound>)
    ensures
        outbound_views(out@) == Seq::<OutboundView>::empty(),
{
    let out: Vec<Outbound> = Vec::new();
    proof {
        assert(outbound_views(out@) =~= Seq::<OutboundView>::empty());
    }
    out
}

/// The hub's state.
pub struct Lobby {
    clients: HashMap<u128, ClientData>,
    passenger_info: StringHashMap<PassengerInformationOutput>,
    ranges: SeatRanges,
    rng: rand::rngs::ThreadRng,
}

impl Lobby {
    /// The session table.
    pub closed spec fn sessions(&self) -> Sessions {
        self.clients@.map_values(|c: ClientData| c@)
    }

    /// The reservation ledger.
    pub closed spec fn ledger(&self) -> Ledger {
        self.passenger_info@
    }

    /// The ranges new entries are drawn from.
    pub closed spec fn seat_ranges(&self) -> SeatRanges {
        self.ranges
    }

    /// The invariant of the hub.
    pub open spec fn wf(&self) -> bool {
        &&& consistent(self.sessions(), self.ledger())
        &&& self.seat_ranges().wf()
    }

    /// A hub with no sessions, an empty ledger and the default ranges.
    pub fn new() -> (r: Self)
        ensures
            r.wf(),
            r.sessions() == Map::<u128, ClientDataView>::empty(),
            r.ledger() == Map::<Seq<char>, PassengerInformationOutput>::empty(),
            r.seat_ranges() == default_ranges(),
    {
        let r = Lobby {
            clients: HashMap::new(),
            passenger_info: StringHashMap::new(),
            ranges: SeatRanges {
                passengers_low: 0,
                passengers_high: 15,
                capacity_low: 20,
                capacity_high: 35,
            },
            rng: thread_rng(),
        };
        proof {
            assert(r.sessions() =~= Map::<u128, ClientDataView>::empty());
        }
        r
    }

    /// A hub with no sessions, an empty ledger and the given ranges, where
    /// these are well formed.
    pub fn with_ranges(ranges: SeatRanges) -> (r: Option<Self>)
        ensures
            r is Some <==> ranges.wf(),
            r matches Some(hub) ==> {
                &&& hub.wf()
                &&& hub.sessions() == Map::<u128, ClientDataView>::empty()
                &&& hub.ledger() == Map::<Seq<char>, PassengerInformationOutput>::empty()
                &&& hub.seat_ranges() == ranges
            },
    {
        if !ranges.is_wf() {
            return None;
        }
        let hub = Lobby {
            clients: HashMap::new(),
            passenger_info: StringHashMap::new(),
            ranges,
            rng: thread_rng(),
        };
        proof {
            assert(hub.sessions() =~= Map::<u128, ClientDataView>::empty());
        }
        Some(hub)
    }

    /// The identifiers of the connected sessions, each once, in no
    /// particular order.
    pub fn session_ids(&self) -> (ids: Vec<u128>)
        ensures
            ids@.no_duplicates(),
            ids@.to_set() == self.sessions().dom(),
    {
        let mut ids: Vec<u128> = Vec::new();
        for k in it: self.clients.keys()
            invariant
                it.seq() == spec_keys_iter(&self.clients).remaining(),
                ids@ == it.seq().take(it.index() as int).unref(),
        {
            proof {
                let s = it.seq();
                let i = it.index() as int;
                assert(s.take(i + 1).unref() =~= s.take(i).unref().push(*s[i]));
            }
            ids.push(*k);
        }
        proof {
            let s = spec_keys_iter(&self.clients).remaining();
            assert(s.take(s.len() as int) =~= s);
            assert(ids@ == s.unref());
            assert(self.sessions().dom() =~= self.clients@.dom());
            assert(ids@.no_duplicates()) by {
                assert forall|i: int, j: int|
                    0 <= i < ids@.len() && 0 <= j < ids@.len() && i != j implies ids@[i]
                    != ids@[j] by {
                    assert(s[i] != s[j]);
                }
            }
        }
        ids
    }

    /// Whether any session is connected.
    pub fn has_clients(&self) -> (r: bool)
        ensures
            r == exists|id: u128| self.sessions().contains_key(id),
    {
        let empty = self.clients.is_empty();
        proof {
            assert(self.sessions().dom() =~= self.clients@.dom());
            if empty {
                assert(self.clients@.dom() =~= Set::<u128>::empty());
                assert forall|id: u128| !self.sessions().contains_key(id) by {
                    assert(!self.clients@.dom().contains(id));
                }
            } else {
                let id = choose|id: u128| self.clients@.dom().contains(id);
                assert(self.sessions().contains_key(id));
            }
        }
        !empty
    }

    /// Whether the session `id` is connected.
    pub fn is_connected(&self, id: u128) -> (r: bool)
        ensures
            r == self.sessions().contains_key(id),
    {
        self.clients.contains_key(&id)
    }

    /// What the ledger holds for the vehicle `descriptor_id`, if it knows it.
    pub fn passenger_information(&self, descriptor_id: &String) -> (r: Option<
        PassengerInformationOutput,
    >)
        ensures
            r == if self.ledger().contains_key(descriptor_id@) {
                Some(self.ledger()[descriptor_id@])
            } else {
                None
            },
    {
        match self.passenger_info.get(descriptor_id.as_str()) {
            Some(entry) => Some(*entry),
            None => None,
        }
    }

    /// Records a new session, with no position, no request and no seat.
    pub fn connect(&mut self, msg: Connect)
        requires
            old(self).wf(),
        ensures
            final(self).wf(),
            (final(self).sessions(), final(self).ledger()) == after_connect(
                old(self).sessions(),
                old(self).ledger(),
                msg.self_id,
            ),
            final(self).seat_ranges() == old(self).seat_ranges(),
    {
        let _ = self.clients.insert(msg.self_id, ClientData::new(msg.self_id));
        proof {
            assert(self.sessions() =~= old(self).sessions().insert(
                msg.self_id,
                fresh_client(msg.self_id),
            ));
            lemma_write_keeps_consistent(
                old(self).sessions(),
                old(self).ledger(),
                msg.self_id,
                fresh_client(msg.self_id),
            );
        }
    }

    /// Replaces the position filter of a session. A session that is not
    /// connected is left alone.
    pub fn update_position(&mut self, msg: PositionUpdate)
        requires
            old(self).wf(),
        ensures
            final(self).wf(),
            final(self).seat_ranges() == old(self).seat_ranges(),
            (final(self).sessions(), final(self).ledger()) == after_position(
                old(self).sessions(),
                old(self).ledger(),
                msg.self_id,
                msg.position@,
            ),
    {
        match self.clients.remove(&msg.self_id) {
            Some(mut client) => {
                client.update_position(msg.position);
                let ghost written = client@;
                let _ = self.clients.insert(msg.self_id, client);
                proof {
                    assert(self.sessions() =~= old(self).sessions().insert(msg.self_id, written));
                    lemma_write_keeps_consistent(
                        old(self).sessions(),
                        old(self).ledger(),
                        msg.self_id,
                        written,
                    );
                }
            },
            None => {
                proof {
                    assert(self.sessions() =~= old(self).sessions());
                }
            },
        }
    }

    /// The message for one session, where that session is still connected.
    pub fn send_message(&self, message: ServerOutput, id_to: u128) -> (r: Option<Outbound>)
        ensures
            r is Some <==> self.sessions().contains_key(id_to),
            r matches Some(o) ==> o.to == id_to && o.message == message,
    {
        if self.clients.contains_key(&id_to) {
            Some(Outbound { to: id_to, message })
        } else {
            None
        }
    }

    /// The error for one session, where that session is still connected.
    pub fn send_error(&self, id_to: u128, error_type: ErrorType, error_message: String) -> (r:
        Option<Outbound>)
        ensures
            r is Some <==> self.sessions().contains_key(id_to),
            r matches Some(o) ==> o@ == (OutboundView {
                to: id_to,
                message: error_view(error_type, error_message@),
            }),
    {
        self.send_message(ServerOutput::error_message(error_type, error_message), id_to)
    }

    /// The same message for every connected session.
    pub fn send_to_everyone(&self, message: &ServerOutput) -> (out: Vec<Outbound>)
        ensures
            fans_out(outbound_views(out@), self.sessions().dom(), same_for_all(message@)),
    {
        let ids = self.session_ids();
        let ghost recipients = self.sessions().dom();
        let ghost what = same_for_all(message@);
        let mut out: Vec<Outbound> = Vec::new();
        let mut i: usize = 0;
        proof {
            lemma_fanned_start(ids@, recipients, what);
            assert(outbound_views(out@) =~= Seq::<OutboundView>::empty());
        }
        while i < ids.len()
            invariant
                i <= ids.len(),
                ids@.no_duplicates(),
                ids@.to_set() == recipients,
                what == same_for_all(message@),
                fanned(outbound_views(out@), ids@, i as int, recipients, what),
            decreases ids.len() - i,
        {
            let id = ids[i];
            let ghost before = outbound_views(out@);
            proof {
                assert(ids@.to_set().contains(ids@[i as int]));
                lemma_fanned_push(before, ids@, i as int, recipients, what);
            }
            out.push(Outbound { to: id, message: message.clone() });
            proof {
                assert(outbound_views(out@) =~= before.push(
                    OutboundView { to: id, message: what(id) },
                ));
            }
            i += 1;
        }
        proof {
            lemma_fanned_done(outbound_views(out@), ids@, recipients, what);
        }
        out
    }

    /// The same message for every connected session but `self_id`.
    pub fn send_to_everyone_except_self(&self, message: &ServerOutput, self_id: u128) -> (out: Vec<
        Outbound,
    >)
        ensures
            fans_out(
                outbound_views(out@),
                self.sessions().dom().remove(self_id),
                same_for_all(message@),
            ),
    {
        let ids = self.session_ids();
        let ghost recipients = self.sessions().dom().remove(self_id);
        let ghost what = same_for_all(message@);
        let mut out: Vec<Outbound> = Vec::new();
        let mut i: usize = 0;
        proof {
            lemma_fanned_start(ids@, recipients, what);
            assert(outbound_views(out@) =~= Seq::<OutboundView>::empty());
        }
        while i < ids.len()
            invariant
                i <= ids.len(),
                ids@.no_duplicates(),
                ids@.to_set() == self.sessions().dom(),
                recipients == self.sessions().dom().remove(self_id),
                what == same_for_all(message@),
                fanned(outbound_views(out@), ids@, i as int, recipients, what),
            decreases ids.len() - i,
        {
            let id = ids[i];
            let ghost before = outbound_views(out@);
            proof {
                assert(ids@.to_set().contains(ids@[i as int]));
            }
            if id != self_id {
                proof {
                    lemma_fanned_push(before, ids@, i as int, recipients, what);
                }
                out.push(Outbound { to: id, message: message.clone() });
                proof {
                    assert(outbound_views(out@) =~= before.push(
                        OutboundView { to: id, message: what(id) },
                    ));
                }
            } else {
                proof {
                    lemma_fanned_skip(before, ids@, i as int, recipients, what);
                }
            }
            i += 1;
        }
        proof {
            lemma_fanned_done(outbound_views(out@), ids@, recipients, what);
        }
        out
    }

    /// The current passenger information of the vehicle `descriptor_id`, for
    /// every session whose last request was about that vehicle. Nothing, for
    /// a vehicle the ledger does not know.
    pub fn send_passenger_update(&self, descriptor_id: &String) -> (out: Vec<Outbound>)
        ensures
            self.ledger().contains_key(descriptor_id@) ==> fans_out(
                outbound_views(out@),
                watchers(self.sessions(), descriptor_id@),
                passenger_update(self.ledger()[descriptor_id@]),
            ),
            !self.ledger().contains_key(descriptor_id@) ==> out@.len() == 0,
    {
        let mut out: Vec<Outbound> = Vec::new();
        let entry = match self.passenger_info.get(descriptor_id.as_str()) {
            Some(entry) => *entry,
            None => {
                return out;
            },
        };
        let ids = self.session_ids();
        let ghost recipients = watchers(self.sessions(), descriptor_id@);
        let ghost what = passenger_update(entry);
        let mut i: usize = 0;
        proof {
            lemma_fanned_start(ids@, recipients, what);
            assert(outbound_views(out@) =~= Seq::<OutboundView>::empty());
        }
        while i < ids.len()
            invariant
                i <= ids.len(),
                ids@.no_duplicates(),
                ids@.to_set() == self.sessions().dom(),
                recipients == watchers(self.sessions(), descriptor_id@),
                what == passenger_update(entry),
                fanned(outbound_views(out@), ids@, i as int, recipients, what),
            decreases ids.len() - i,
        {
            let id = ids[i];
            let ghost before = outbound_views(out@);
            let watching = match self.clients.get(&id) {
                Some(client) => match &client.last_descriptor_request {
                    Some(last) => *last == *descriptor_id,
                    None => false,
                },
                None => false,
            };
            proof {
                assert(watching == recipients.contains(id));
            }
            if watching {
                proof {
                    lemma_fanned_push(before, ids@, i as int, recipients, what);
                }
                out.push(Outbound { to: id, message: ServerOutput::PassengerInformation(entry) });
                proof {
                    assert(outbound_views(out@) =~= before.push(
                        OutboundView { to: id, message: what(id) },
                    ));
                }
            } else {
                proof {
                    lemma_fanned_skip(before, ids@, i as int, recipients, what);
                }
            }
            i += 1;
        }
        proof {
            assert(recipients.subset_of(ids@.to_set()));
            lemma_fanned_done(outbound_views(out@), ids@, recipients, what);
        }
        out
    }
    /// Draws the entry of a vehicle that is asked about for the first time.
    fn draw_entry(&mut self) -> (entry: PassengerInformationOutput)
        requires
            old(self).seat_ranges().wf(),
        ensures
            final(self).sessions() == old(self).sessions(),
            final(self).ledger() == old(self).ledger(),
            final(self).seat_ranges() == old(self).seat_ranges(),
            old(self).seat_ranges().admits(entry),
            entry_valid(entry),
    {
        let passengers = gen_range(
            &mut self.rng,
            self.ranges.passengers_low,
            self.ranges.passengers_high,
        );
        let capacity = gen_range(&mut self.rng, self.ranges.capacity_low, self.ranges.capacity_high);
        PassengerInformationOutput { capacity, passengers }
    }

    /// Removes a session. A seat it held is given back, and the sessions that
    /// watch that vehicle are told its new occupancy. Disconnecting a session
    /// that is not connected does nothing.
    pub fn disconnect(&mut self, msg: Disconnect) -> (out: Vec<Outbound>)
        requires
            old(self).wf(),
        ensures
            final(self).wf(),
            final(self).seat_ranges() == old(self).seat_ranges(),
            disconnect_post(
                old(self).sessions(),
                old(self).ledger(),
                final(self).sessions(),
                final(self).ledger(),
                outbound_views(out@),
                msg.self_id,
            ),
    {
        let ghost s0 = self.sessions();
        let ghost l0 = self.ledger();
        match self.clients.remove(&msg.self_id) {
            None => {
                proof {
                    assert(self.sessions() =~= s0);
                }
                Vec::new()
            },
            Some(client) => {
                proof {
                    assert(self.sessions() =~= s0.remove(msg.self_id));
                    assert(s0[msg.self_id] == client@);
                }
                match client.reserved_seat {
                    None => {
                        proof {
                            lemma_remove_keeps_consistent(s0, l0, msg.self_id);
                        }
                        Vec::new()
                    },
                    Some(seat) => {
                        proof {
                            lemma_release_keeps_consistent(s0, l0, msg.self_id, seat@);
                        }
                        match self.passenger_info.get(seat.as_str()) {
                            Some(entry) => {
                                let after = PassengerInformationOutput {
                                    capacity: entry.capacity,
                                    passengers: entry.passengers - 1,
                                };
                                self.passenger_info.insert(seat.clone(), after);
                                self.send_passenger_update(&seat)
                            },
                            None => Vec::new(),
                        }
                    },
                }
            },
        }
    }

    /// Answers a passenger-information request. A vehicle that is asked about
    /// for the first time gets an entry drawn from the hub's ranges, which it
    /// keeps from then on.
    pub fn passenger_info(&mut self, msg: PassengerInfo) -> (out: Vec<Outbound>)
        requires
            old(self).wf(),
        ensures
            final(self).wf(),
            final(self).seat_ranges() == old(self).seat_ranges(),
            passenger_info_post(
                old(self).sessions(),
                old(self).ledger(),
                final(self).sessions(),
                final(self).ledger(),
                outbound_views(out@),
                msg.self_id,
                msg.descriptor_id@,
                final(self).ledger()[msg.descriptor_id@],
            ),
            old(self).sessions().contains_key(msg.self_id) && !old(self).ledger().contains_key(
                msg.descriptor_id@,
            ) ==> old(self).seat_ranges().admits(final(self).ledger()[msg.descriptor_id@]),
    {
        let fresh = self.draw_entry();
        self.passenger_info_with(msg, fresh)
    }

    /// Answers a passenger-information request, with `fresh` as the entry of
    /// a vehicle that is asked about for the first time.
    pub fn passenger_info_with(&mut self, msg: PassengerInfo, fresh: PassengerInformationOutput) -> (out:
        Vec<Outbound>)
        requires
            old(self).wf(),
            entry_valid(fresh),
        ensures
            final(self).wf(),
            final(self).seat_ranges() == old(self).seat_ranges(),
            passenger_info_post(
                old(self).sessions(),
                old(self).ledger(),
                final(self).sessions(),
                final(self).ledger(),
                outbound_views(out@),
                msg.self_id,
                msg.descriptor_id@,
                fresh,
            ),
    {
        let ghost s0 = self.sessions();
        let ghost l0 = self.ledger();
        let ghost d = msg.descriptor_id@;
        match self.clients.remove(&msg.self_id) {
            None => {
                proof {
                    assert(self.sessions() =~= s0);
                }
                Vec::new()
            },
            Some(mut client) => {
                proof {
                    assert(s0[msg.self_id] == client@);
                }
                let entry = match self.passenger_info.get(msg.descriptor_id.as_str()) {
                    Some(entry) => *entry,
                    None => {
                        self.passenger_info.insert(msg.descriptor_id.clone(), fresh);
                        proof {
                            lemma_new_entry_keeps_consistent(s0, l0, d, fresh);
                        }
                        fresh
                    },
                };
                let ghost l1 = self.ledger();
                proof {
                    assert(s0.contains_key(msg.self_id));
                    assert(client@.id == msg.self_id);
                }
                client.update_last_descriptor(msg.descriptor_id);
                let ghost written = client@;
                let _ = self.clients.insert(msg.self_id, client);
                proof {
                    assert(self.sessions() =~= s0.insert(msg.self_id, written));
                    lemma_write_keeps_consistent(s0, l1, msg.self_id, written);
                }
                single(msg.self_id, ServerOutput::PassengerInformation(entry))
            },
        }
    }

    /// Takes a seat on a vehicle for a session.
    pub fn reserve_seat(&mut self, msg: ReserveSeat) -> (out: Vec<Outbound>)
        requires
            old(self).wf(),
        ensures
            final(self).wf(),
            final(self).seat_ranges() == old(self).seat_ranges(),
            reserve_post(
                old(self).sessions(),
                old(self).ledger(),
                final(self).sessions(),
                final(self).ledger(),
                outbound_views(out@),
                msg.self_id,
                msg.descriptor_id@,
            ),
    {
        let ghost s0 = self.sessions();
        let ghost l0 = self.ledger();
        let ghost d = msg.descriptor_id@;
        if !self.clients.contains_key(&msg.self_id) {
            return Vec::new();
        }
        let entry = match self.passenger_info.get(msg.descriptor_id.as_str()) {
            Some(entry) => *entry,
            None => {
                let reason = "A bus with descriptor id '".to_owned().concat(
                    msg.descriptor_id.as_str(),
                ).concat("' does not exist.");
                return single(msg.self_id, ServerOutput::error_message(ErrorType::Reserve, reason));
            },
        };
        if entry.passengers >= entry.capacity {
            let reason = "The bus with descriptor id '".to_owned().concat(
                msg.descriptor_id.as_str(),
            ).concat("' is full");
            return single(msg.self_id, ServerOutput::error_message(ErrorType::Reserve, reason));
        }
        match self.clients.remove(&msg.self_id) {
            None => Vec::new(),
            Some(mut client) => {
                proof {
                    assert(s0[msg.self_id] == client@);
                }
                if client.reserved_seat.is_some() {
                    let _ = self.clients.insert(msg.self_id, client);
                    proof {
                        assert(self.sessions() =~= s0);
                    }
                    let reason = "Cannot reserve since there is already an active reservation.".to_owned();
                    return single(
                        msg.self_id,
                        ServerOutput::error_message(ErrorType::Reserve, reason),
                    );
                }
                client.reserved_seat = Some(msg.descriptor_id.clone());
                let ghost written = client@;
                let _ = self.clients.insert(msg.self_id, client);
                let after = PassengerInformationOutput {
                    capacity: entry.capacity,
                    passengers: entry.passengers + 1,
                };
                self.passenger_info.insert(msg.descriptor_id.clone(), after);
                proof {
                    assert(written == with_seat(s0[msg.self_id], Some(d)));
                    assert(self.sessions() =~= s0.insert(msg.self_id, written));
                    lemma_reserve_keeps_consistent(s0, l0, msg.self_id, d);
                }
                self.send_passenger_update(&msg.descriptor_id)
            },
        }
    }

    /// Gives the seat of a session back.
    pub fn unreserve_seat(&mut self, msg: UnreserveSeat) -> (out: Vec<Outbound>)
        requires
            old(self).wf(),
        ensures
            final(self).wf(),
            final(self).seat_ranges() == old(self).seat_ranges(),
            unreserve_post(
                old(self).sessions(),
                old(self).ledger(),
                final(self).sessions(),
                final(self).ledger(),
                outbound_views(out@),
                msg.self_id,
            ),
    {
        let ghost s0 = self.sessions();
        let ghost l0 = self.ledger();
        match self.clients.remove(&msg.self_id) {
            None => {
                proof {
                    assert(self.sessions() =~= s0);
                }
                Vec::new()
            },
            Some(mut client) => {
                proof {
                    assert(s0[msg.self_id] == client@);
                }
                match client.reserved_seat {
                    None => {
                        client.reserved_seat = None;
                        let _ = self.clients.insert(msg.self_id, client);
                        proof {
                            assert(self.sessions() =~= s0);
                        }
                        let reason = "Cannot unreserve since there is no active reservation.".to_owned();
                        single(
                            msg.self_id,
                            ServerOutput::error_message(ErrorType::Unreserve, reason),
                        )
                    },
                    Some(seat) => {
                        client.reserved_seat = None;
                        let ghost written = client@;
                        let _ = self.clients.insert(msg.self_id, client);
                        proof {
                            assert(written == with_seat(s0[msg.self_id], None));
                            assert(self.sessions() =~= s0.insert(msg.self_id, written));
                            lemma_release_keeps_consistent(s0, l0, msg.self_id, seat@);
                        }
                        match self.passenger_info.get(seat.as_str()) {
                            Some(entry) => {
                                let after = PassengerInformationOutput {
                                    capacity: entry.capacity,
                                    passengers: entry.passengers - 1,
                                };
                                self.passenger_info.insert(seat.clone(), after);
                                self.send_passenger_update(&seat)
                            },
                            None => Vec::new(),
                        }
                    },
                }
            },
        }
    }
    /// The position filter of the session `id`, if it is connected and has
    /// one.
    pub fn position_of(&self, id: u128) -> (r: Option<GeoPosition>)
        ensures
            filter_view(r) == if self.sessions().contains_key(id) {
                self.sessions()[id].position
            } else {
                None
            },
    {
        match self.clients.get(&id) {
            Some(client) => match &client.position {
                Some(geo) => Some(geo.clone()),
                None => None,
            },
            None => None,
        }
    }

    /// One vehicle-positions message, stamped `timestamp`, for every session
    /// that has a position filter and sees at least one of the vehicles
    /// through it. `distances` holds, for a session, the distance from its
    /// centre to each vehicle, in the vehicles' order.
    pub fn send_filtered_positions(
        &self,
        vhcs: &Vec<Vehicle>,
        distances: &HashMap<u128, Vec<u64>>,
        timestamp: u64,
    ) -> (out: Vec<Outbound>)
        ensures
            fans_out(
                outbound_views(out@),
                position_recipients(self.sessions(), vehicle_views(vhcs@), distances@),
                positions_update(self.sessions(), vehicle_views(vhcs@), distances@, timestamp),
            ),
    {
        let ids = self.session_ids();
        let ghost all = vehicle_views(vhcs@);
        let ghost recipients = position_recipients(self.sessions(), all, distances@);
        let ghost what = positions_update(self.sessions(), all, distances@, timestamp);
        let mut out: Vec<Outbound> = Vec::new();
        let mut i: usize = 0;
        proof {
            lemma_fanned_start(ids@, recipients, what);
            assert(outbound_views(out@) =~= Seq::<OutboundView>::empty());
        }
        while i < ids.len()
            invariant
                i <= ids.len(),
                ids@.no_duplicates(),
                ids@.to_set() == self.sessions().dom(),
                all == vehicle_views(vhcs@),
                recipients == position_recipients(self.sessions(), all, distances@),
                what == positions_update(self.sessions(), all, distances@, timestamp),
                fanned(outbound_views(out@), ids@, i as int, recipients, what),
            decreases ids.len() - i,
        {
            let id = ids[i];
            let ghost before = outbound_views(out@);
            proof {
                assert(ids@.to_set().contains(ids@[i as int]));
                assert(self.sessions().contains_key(id));
            }
            let seen: Vec<Vehicle> = match self.clients.get(&id) {
                Some(client) => match &client.position {
                    Some(geo) => match distances.get(&id) {
                        Some(row) => visible_vehicles(geo, vhcs, row),
                        None => {
                            let row: Vec<u64> = Vec::new();
                            visible_vehicles(geo, vhcs, &row)
                        },
                    },
                    None => Vec::new(),
                },
                None => Vec::new(),
            };
            proof {
                assert(vehicle_views(seen@) =~= seen_by(self.sessions(), id, all, distances@));
                assert(vehicle_views(seen@).len() == seen@.len());
            }
            if seen.len() > 0 {
                proof {
                    lemma_fanned_push(before, ids@, i as int, recipients, what);
                }
                out.push(
                    Outbound {
                        to: id,
                        message: ServerOutput::VehiclePositions(
                            VehiclePositionsOutput { timestamp, vehicles: seen },
                        ),
                    },
                );
                proof {
                    assert(outbound_views(out@) =~= before.push(
                        OutboundView { to: id, message: what(id) },
                    ));
                }
            } else {
                proof {
                    lemma_fanned_skip(before, ids@, i as int, recipients, what);
                }
            }
            i += 1;
        }
        proof {
            assert(recipients.subset_of(ids@.to_set()));
            lemma_fanned_done(outbound_views(out@), ids@, recipients, what);
        }
        out
    }
    /// The first step of a route request: a lookup in the store, or the
    /// refusal for the session.
    pub fn route_request(&self, msg: RouteRequest) -> (reply: LobbyReply)
        ensures
            route_request_post(
                self.sessions(),
                self.ledger(),
                self.sessions(),
                self.ledger(),
                reply@,
                msg.self_id,
                msg.identifier@,
            ),
    {
        let (state, step) = start(&msg);
        match step {
            RouteStep::Ask(query) => LobbyReply::Lookup(msg, state, query),
            RouteStep::Reply(message) => {
                if self.clients.contains_key(&msg.self_id) {
                    LobbyReply::Send(single(msg.self_id, message))
                } else {
                    LobbyReply::Send(nothing())
                }
            },
        }
    }

    /// Takes one request from a session and carries it out to the end. A
    /// vehicle that is asked about for the first time gets an entry drawn
    /// from the hub's ranges.
    pub fn handle(&mut self, msg: LobbyRequest) -> (reply: LobbyReply)
        requires
            old(self).wf(),
        ensures
            final(self).wf(),
            final(self).seat_ranges() == old(self).seat_ranges(),
            handle_post(
                old(self).sessions(),
                old(self).ledger(),
                final(self).sessions(),
                final(self).ledger(),
                reply@,
                msg@,
                entry_asked(final(self).ledger(), msg@),
            ),
            msg@ matches LobbyRequestView::PassengerInfo(id, d) ==> (old(self).sessions().contains_key(
                id,
            ) && !old(self).ledger().contains_key(d) ==> old(self).seat_ranges().admits(
                final(self).ledger()[d],
            )),
    {
        match msg {
            LobbyRequest::Connect(m) => {
                self.connect(m);
                LobbyReply::Send(nothing())
            },
            LobbyRequest::Disconnect(m) => LobbyReply::Send(self.disconnect(m)),
            LobbyRequest::PositionUpdate(m) => {
                self.update_position(m);
                LobbyReply::Send(nothing())
            },
            LobbyRequest::RouteRequest(m) => self.route_request(m),
            LobbyRequest::PassengerInfo(m) => LobbyReply::Send(self.passenger_info(m)),
            LobbyRequest::ReserveSeat(m) => LobbyReply::Send(self.reserve_seat(m)),
            LobbyRequest::UnreserveSeat(m) => LobbyReply::Send(self.unreserve_seat(m)),
        }
    }
}

} // verus!
