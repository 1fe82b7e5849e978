//! The hub's state as mathematics: the session table, the reservation ledger,
//! what must hold of the two together, and why each step keeps it so.

use vstd::prelude::*;
use vstd::set_lib::lemma_len_subset;
use crate::client::{fresh_client, ClientDataView};
use crate::messages::LobbyRequestView;
use crate::protocol::server_protocol::PassengerInformationOutput;

verus! {

/// The session table as a map from identifier to record.
pub type Sessions = Map<u128, ClientDataView>;

/// The reservation ledger as a map from vehicle descriptor to its entry.
pub type Ledger = Map<Seq<char>, PassengerInformationOutput>;

/// An entry is valid when its occupancy lies between zero and its capacity.
pub open spec fn entry_valid(entry: PassengerInformationOutput) -> bool {
    0 <= entry.passengers <= entry.capacity
}

/// The entry with one more seat taken.
pub open spec fn taken(entry: PassengerInformationOutput) -> PassengerInformationOutput {
    PassengerInformationOutput {
        capacity: entry.capacity,
        passengers: (entry.passengers + 1) as i32,
    }
}

/// The entry with one seat given back.
pub open spec fn released(entry: PassengerInformationOutput) -> PassengerInformationOutput {
    PassengerInformationOutput {
        capacity: entry.capacity,
        passengers: (entry.passengers - 1) as i32,
    }
}

/// The sessions that hold a seat on the vehicle `descriptor`.
pub open spec fn holders(sessions: Sessions, descriptor: Seq<char>) -> Set<u128> {
    Set::new(
        |id: u128| sessions.contains_key(id) && sessions[id].reserved_seat == Some(descriptor),
    )
}

/// The sessions that are told when the vehicle `descriptor` changes: those
/// whose last passenger-information request was about it.
pub open spec fn watchers(sessions: Sessions, descriptor: Seq<char>) -> Set<u128> {
    Set::new(
        |id: u128|
            sessions.contains_key(id) && sessions[id].last_descriptor_request == Some(
                descriptor,
            ),
    )
}

/// What must hold of a session table and a ledger that belong together:
/// the table is finite and keyed by the records' own identifiers, every entry
/// is valid, every seat held is a seat on a known vehicle, and no vehicle has
/// fewer occupants than sessions holding a seat on it.
pub open spec fn consistent(sessions: Sessions, ledger: Ledger) -> bool {
    &&& sessions.dom().finite()
    &&& forall|id: u128| #[trigger] sessions.contains_key(id) ==> sessions[id].id == id
    &&& forall|d: Seq<char>| #[trigger] ledger.contains_key(d) ==> entry_valid(ledger[d])
    &&& forall|id: u128| #[trigger]
        sessions.contains_key(id) ==> match sessions[id].reserved_seat {
            Some(d) => ledger.contains_key(d),
            None => true,
        }
    &&& forall|d: Seq<char>| #[trigger]
        ledger.contains_key(d) ==> holders(sessions, d).len() <= ledger[d].passengers
}

/// The record `client` with its seat set to `seat`.
pub open spec fn with_seat(client: ClientDataView, seat: Option<Seq<char>>) -> ClientDataView {
    ClientDataView { reserved_seat: seat, ..client }
}

/// The sessions holding a seat on one vehicle are finitely many.
pub proof fn lemma_holders_finite(sessions: Sessions, descriptor: Seq<char>)
    requires
        sessions.dom().finite(),
    ensures
        holders(sessions, descriptor).finite(),
        holders(sessions, descriptor).len() <= sessions.dom().len(),
{
    lemma_len_subset(holders(sessions, descriptor), sessions.dom());
}

/// Writing a record that holds no seat, or the seat the session held
/// before, keeps table and ledger consistent.
pub proof fn lemma_write_keeps_consistent(
    sessions: Sessions,
    ledger: Ledger,
    id: u128,
    client: ClientDataView,
)
    requires
        consistent(sessions, ledger),
        client.id == id,
        client.reserved_seat is None || (sessions.contains_key(id) && client.reserved_seat
            == sessions[id].reserved_seat),
    ensures
        consistent(sessions.insert(id, client), ledger),
{
    let after = sessions.insert(id, client);
    assert(after.dom() =~= sessions.dom().insert(id));
    assert forall|d: Seq<char>| #[trigger] ledger.contains_key(d) implies holders(after, d).len()
        <= ledger[d].passengers by {
        lemma_holders_finite(sessions, d);
        assert(holders(after, d).subset_of(holders(sessions, d)));
        lemma_len_subset(holders(after, d), holders(sessions, d));
    }
}

/// Removing a session without touching the ledger keeps table and ledger
/// consistent.
pub proof fn lemma_remove_keeps_consistent(sessions: Sessions, ledger: Ledger, id: u128)
    requires
        consistent(sessions, ledger),
    ensures
        consistent(sessions.remove(id), ledger),
{
    let after = sessions.remove(id);
    assert(after.dom() =~= sessions.dom().remove(id));
    assert forall|d: Seq<char>| #[trigger] ledger.contains_key(d) implies holders(after, d).len()
        <= ledger[d].passengers by {
        lemma_holders_finite(sessions, d);
        assert(holders(after, d).subset_of(holders(sessions, d)));
        lemma_len_subset(holders(after, d), holders(sessions, d));
    }
}

/// Adding a valid entry for a vehicle the ledger did not know keeps table and
/// ledger consistent.
pub proof fn lemma_new_entry_keeps_consistent(
    sessions: Sessions,
    ledger: Ledger,
    descriptor: Seq<char>,
    entry: PassengerInformationOutput,
)
    requires
        consistent(sessions, ledger),
        !ledger.contains_key(descriptor),
        entry_valid(entry),
    ensures
        consistent(sessions, ledger.insert(descriptor, entry)),
{
    let after = ledger.insert(descriptor, entry);
    assert(holders(sessions, descriptor) =~= Set::<u128>::empty()) by {
        assert forall|id: u128| !holders(sessions, descriptor).contains(id) by {
            if sessions.contains_key(id) && sessions[id].reserved_seat == Some(descriptor) {
                assert(ledger.contains_key(descriptor));
            }
        }
    }
    assert forall|d: Seq<char>| #[trigger] after.contains_key(d) implies holders(sessions, d).len()
        <= after[d].passengers by {
        if d != descriptor {
            assert(ledger.contains_key(d));
        }
    }
    assert forall|id: u128| #[trigger] sessions.contains_key(id) implies match sessions[id].reserved_seat {
        Some(d) => after.contains_key(d),
        None => true,
    } by {
        match sessions[id].reserved_seat {
            Some(d) => {
                assert(ledger.contains_key(d));
            },
            None => {},
        }
    }
}

/// A session that holds a seat on a vehicle is counted among its occupants:
/// the vehicle is known and at least one of its seats is taken.
pub proof fn lemma_held_seat_is_counted(
    sessions: Sessions,
    ledger: Ledger,
    id: u128,
    descriptor: Seq<char>,
)
    requires
        consistent(sessions, ledger),
        sessions.contains_key(id),
        sessions[id].reserved_seat == Some(descriptor),
    ensures
        ledger.contains_key(descriptor),
        1 <= ledger[descriptor].passengers <= ledger[descriptor].capacity,
{
    lemma_holders_finite(sessions, descriptor);
    let h = holders(sessions, descriptor);
    assert(h.contains(id));
    assert(h.len() >= 1) by {
        if h.len() == 0 {
            assert(h =~= Set::<u128>::empty());
        }
    }
    assert(ledger.contains_key(descriptor));
}

/// Giving a held seat back, whether the session stays or leaves, keeps table
/// and ledger consistent, and takes exactly one occupant off the vehicle.
pub proof fn lemma_release_keeps_consistent(
    sessions: Sessions,
    ledger: Ledger,
    id: u128,
    descriptor: Seq<char>,
)
    requires
        consistent(sessions, ledger),
        sessions.contains_key(id),
        sessions[id].reserved_seat == Some(descriptor),
    ensures
        ledger.contains_key(descriptor),
        1 <= ledger[descriptor].passengers,
        released(ledger[descriptor]).passengers == ledger[descriptor].passengers - 1,
        consistent(
            sessions.remove(id),
            ledger.insert(descriptor, released(ledger[descriptor])),
        ),
        consistent(
            sessions.insert(id, with_seat(sessions[id], None)),
            ledger.insert(descriptor, released(ledger[descriptor])),
        ),
{
    lemma_held_seat_is_counted(sessions, ledger, id, descriptor);
    let after_ledger = ledger.insert(descriptor, released(ledger[descriptor]));
    let gone = sessions.remove(id);
    let stays = sessions.insert(id, with_seat(sessions[id], None));
    assert(gone.dom() =~= sessions.dom().remove(id));
    assert(stays.dom() =~= sessions.dom());
    assert forall|d: Seq<char>| #[trigger] after_ledger.contains_key(d) implies holders(gone, d).len()
        <= after_ledger[d].passengers && holders(stays, d).len() <= after_ledger[d].passengers by {
        lemma_holders_finite(sessions, d);
        assert(ledger.contains_key(d));
        if d == descriptor {
            assert(holders(gone, d) =~= holders(sessions, d).remove(id));
            assert(holders(stays, d) =~= holders(sessions, d).remove(id));
            assert(holders(sessions, d).contains(id));
        } else {
            assert(holders(gone, d) =~= holders(sessions, d));
            assert(holders(stays, d) =~= holders(sessions, d));
        }
    }
    assert forall|i: u128| #[trigger] gone.contains_key(i) implies match gone[i].reserved_seat {
        Some(d) => after_ledger.contains_key(d),
        None => true,
    } by {
        assert(sessions.contains_key(i));
    }
    assert forall|i: u128| #[trigger] stays.contains_key(i) implies match stays[i].reserved_seat {
        Some(d) => after_ledger.contains_key(d),
        None => true,
    } by {
        assert(sessions.contains_key(i));
    }
}

/// Taking a free seat for a session that holds none keeps table and ledger
/// consistent.
pub proof fn lemma_reserve_keeps_consistent(
    sessions: Sessions,
    ledger: Ledger,
    id: u128,
    descriptor: Seq<char>,
)
    requires
        consistent(sessions, ledger),
        sessions.contains_key(id),
        sessions[id].reserved_seat is None,
        ledger.contains_key(descriptor),
        ledger[descriptor].passengers < ledger[descriptor].capacity,
    ensures
        consistent(
            sessions.insert(id, with_seat(sessions[id], Some(descriptor))),
            ledger.insert(descriptor, taken(ledger[descriptor])),
        ),
{
    let after_ledger = ledger.insert(descriptor, taken(ledger[descriptor]));
    let after = sessions.insert(id, with_seat(sessions[id], Some(descriptor)));
    assert(after.dom() =~= sessions.dom());
    assert forall|d: Seq<char>| #[trigger] after_ledger.contains_key(d) implies holders(after, d).len()
        <= after_ledger[d].passengers by {
        lemma_holders_finite(sessions, d);
        assert(ledger.contains_key(d));
        if d == descriptor {
            assert(holders(after, d) =~= holders(sessions, d).insert(id));
            assert(!holders(sessions, d).contains(id));
        } else {
            assert(holders(after, d) =~= holders(sessions, d));
        }
    }
    assert forall|i: u128| #[trigger] after.contains_key(i) implies match after[i].reserved_seat {
        Some(d) => after_ledger.contains_key(d),
        None => true,
    } by {
        assert(sessions.contains_key(i));
    }
}

/// Why a seat request of a connected session is refused, where it is.
pub enum Refusal {
    /// The ledger does not know the vehicle.
    UnknownVehicle,
    /// Every seat of the vehicle is taken.
    Full,
    /// The session holds a seat already.
    AlreadyReserved,
}

/// Why the connected session `id` is refused a seat on `d`, if it is: the
/// vehicle is looked at first, then the session.
pub open spec fn reserve_refusal(s: Sessions, l: Ledger, id: u128, d: Seq<char>) -> Option<
    Refusal,
> {
    if !l.contains_key(d) {
        Some(Refusal::UnknownVehicle)
    } else if l[d].passengers >= l[d].capacity {
        Some(Refusal::Full)
    } else if s[id].reserved_seat is Some {
        Some(Refusal::AlreadyReserved)
    } else {
        None
    }
}

/// The state after a session has connected.
pub open spec fn after_connect(s: Sessions, l: Ledger, id: u128) -> (Sessions, Ledger) {
    (s.insert(id, fresh_client(id)), l)
}

/// The state after a session has disconnected: the session is gone, and a
/// seat it held is given back.
pub open spec fn after_disconnect(s: Sessions, l: Ledger, id: u128) -> (Sessions, Ledger) {
    if !s.contains_key(id) {
        (s, l)
    } else {
        match s[id].reserved_seat {
            Some(d) => (s.remove(id), l.insert(d, released(l[d]))),
            None => (s.remove(id), l),
        }
    }
}

/// The state after a passenger-information request, where `fresh` is the
/// entry for a vehicle that the ledger does not know yet.
pub open spec fn after_passenger_info(
    s: Sessions,
    l: Ledger,
    id: u128,
    d: Seq<char>,
    fresh: PassengerInformationOutput,
) -> (Sessions, Ledger) {
    if !s.contains_key(id) {
        (s, l)
    } else {
        (
            s.insert(id, ClientDataView { last_descriptor_request: Some(d), ..s[id] }),
            if l.contains_key(d) {
                l
            } else {
                l.insert(d, fresh)
            },
        )
    }
}

/// The state after a seat request: unchanged where the session is not
/// connected or the request is refused.
pub open spec fn after_reserve(s: Sessions, l: Ledger, id: u128, d: Seq<char>) -> (
    Sessions,
    Ledger,
) {
    if s.contains_key(id) && reserve_refusal(s, l, id, d) is None {
        (s.insert(id, with_seat(s[id], Some(d))), l.insert(d, taken(l[d])))
    } else {
        (s, l)
    }
}

/// The state after a session has given its seat back: unchanged where the
/// session is not connected or holds none.
pub open spec fn after_unreserve(s: Sessions, l: Ledger, id: u128) -> (Sessions, Ledger) {
    if !s.contains_key(id) {
        (s, l)
    } else {
        match s[id].reserved_seat {
            Some(d) => (s.insert(id, with_seat(s[id], None)), l.insert(d, released(l[d]))),
            None => (s, l),
        }
    }
}

/// The state after a position update: unchanged where the session is not
/// connected.
pub open spec fn after_position(
    s: Sessions,
    l: Ledger,
    id: u128,
    position: crate::protocol::client_protocol::GeoPositionView,
) -> (Sessions, Ledger) {
    if s.contains_key(id) {
        (s.insert(id, ClientDataView { position: Some(position), ..s[id] }), l)
    } else {
        (s, l)
    }
}

/// The state after one request, where `fresh` is the entry for a vehicle
/// that is asked about for the first time. A route request changes nothing.
pub open spec fn after_request(
    s: Sessions,
    l: Ledger,
    request: LobbyRequestView,
    fresh: PassengerInformationOutput,
) -> (Sessions, Ledger) {
    match request {
        LobbyRequestView::Connect(id) => after_connect(s, l, id),
        LobbyRequestView::Disconnect(id) => after_disconnect(s, l, id),
        LobbyRequestView::PositionUpdate(id, position) => after_position(s, l, id, position),
        LobbyRequestView::RouteRequest(_, _) => (s, l),
        LobbyRequestView::PassengerInfo(id, d) => after_passenger_info(s, l, id, d, fresh),
        LobbyRequestView::ReserveSeat(id, d) => after_reserve(s, l, id, d),
        LobbyRequestView::UnreserveSeat(id) => after_unreserve(s, l, id),
    }
}

/// The state after a sequence of requests, each with the entry to use for a
/// vehicle that it asks about for the first time.
pub open spec fn after_requests(
    s: Sessions,
    l: Ledger,
    requests: Seq<(LobbyRequestView, PassengerInformationOutput)>,
) -> (Sessions, Ledger)
    decreases requests.len(),
{
    if requests.len() == 0 {
        (s, l)
    } else {
        let (s1, l1) = after_requests(s, l, requests.drop_last());
        after_request(s1, l1, requests.last().0, requests.last().1)
    }
}

/// One request keeps table and ledger consistent.
pub proof fn lemma_request_keeps_consistent(
    s: Sessions,
    l: Ledger,
    request: LobbyRequestView,
    fresh: PassengerInformationOutput,
)
    requires
        consistent(s, l),
        entry_valid(fresh),
    ensures
        consistent(after_request(s, l, request, fresh).0, after_request(s, l, request, fresh).1),
{
    match request {
        LobbyRequestView::Connect(id) => {
            lemma_write_keeps_consistent(s, l, id, fresh_client(id));
        },
        LobbyRequestView::Disconnect(id) => {
            if s.contains_key(id) {
                match s[id].reserved_seat {
                    Some(d) => {
                        lemma_release_keeps_consistent(s, l, id, d);
                    },
                    None => {
                        lemma_remove_keeps_consistent(s, l, id);
                    },
                }
            }
        },
        LobbyRequestView::PositionUpdate(id, position) => {
            if s.contains_key(id) {
                lemma_write_keeps_consistent(
                    s,
                    l,
                    id,
                    ClientDataView { position: Some(position), ..s[id] },
                );
            }
        },
        LobbyRequestView::RouteRequest(_, _) => {},
        LobbyRequestView::PassengerInfo(id, d) => {
            if s.contains_key(id) {
                let l1 = if l.contains_key(d) {
                    l
                } else {
                    l.insert(d, fresh)
                };
                if !l.contains_key(d) {
                    lemma_new_entry_keeps_consistent(s, l, d, fresh);
                }
                lemma_write_keeps_consistent(
                    s,
                    l1,
                    id,
                    ClientDataView { last_descriptor_request: Some(d), ..s[id] },
                );
            }
        },
        LobbyRequestView::ReserveSeat(id, d) => {
            if s.contains_key(id) && reserve_refusal(s, l, id, d) is None {
                lemma_reserve_keeps_consistent(s, l, id, d);
            }
        },
        LobbyRequestView::UnreserveSeat(id) => {
            if s.contains_key(id) {
                match s[id].reserved_seat {
                    Some(d) => {
                        lemma_release_keeps_consistent(s, l, id, d);
                    },
                    None => {},
                }
            }
        },
    }
}

/// Whatever is asked of the hub, and in whatever order, the occupancy of
/// every vehicle stays between zero and its capacity.
pub proof fn lemma_occupancy_stays_within_capacity(
    s: Sessions,
    l: Ledger,
    requests: Seq<(LobbyRequestView, PassengerInformationOutput)>,
)
    requires
        consistent(s, l),
        forall|i: int| 0 <= i < requests.len() ==> entry_valid((#[trigger] requests[i]).1),
    ensures
        consistent(after_requests(s, l, requests).0, after_requests(s, l, requests).1),
        forall|d: Seq<char>| #[trigger]
            after_requests(s, l, requests).1.contains_key(d) ==> 0 <= after_requests(
                s,
                l,
                requests,
            ).1[d].passengers <= after_requests(s, l, requests).1[d].capacity,
    decreases requests.len(),
{
    if requests.len() > 0 {
        let earlier = requests.drop_last();
        assert forall|i: int| 0 <= i < earlier.len() implies entry_valid(
            (#[trigger] earlier[i]).1,
        ) by {
            assert(earlier[i] == requests[i]);
        }
        lemma_occupancy_stays_within_capacity(s, l, earlier);
        let (s1, l1) = after_requests(s, l, earlier);
        lemma_request_keeps_consistent(s1, l1, requests.last().0, requests.last().1);
    }
}

/// A seat request for a vehicle whose seats are all taken changes nothing
/// and is refused as full.
pub proof fn lemma_full_vehicle_refuses(s: Sessions, l: Ledger, id: u128, d: Seq<char>)
    requires
        s.contains_key(id),
        l.contains_key(d),
        l[d].passengers == l[d].capacity,
    ensures
        after_reserve(s, l, id, d) == (s, l),
        reserve_refusal(s, l, id, d) == Some(Refusal::Full),
{
}

/// The disconnect of a session that holds a seat takes exactly one occupant
/// off that vehicle and leaves every other vehicle alone; and disconnecting
/// the same session again changes nothing.
pub proof fn lemma_disconnect_releases_once(s: Sessions, l: Ledger, id: u128, d: Seq<char>)
    requires
        consistent(s, l),
        s.contains_key(id),
        s[id].reserved_seat == Some(d),
    ensures
        after_disconnect(s, l, id).1.contains_key(d),
        after_disconnect(s, l, id).1[d].passengers == l[d].passengers - 1,
        after_disconnect(s, l, id).1[d].capacity == l[d].capacity,
        forall|other: Seq<char>|
            other != d ==> after_disconnect(s, l, id).1.contains_key(other) == l.contains_key(
                other,
            ) && after_disconnect(s, l, id).1[other] == l[other],
        after_disconnect(after_disconnect(s, l, id).0, after_disconnect(s, l, id).1, id)
            == after_disconnect(s, l, id),
{
    lemma_held_seat_is_counted(s, l, id, d);
}

} // verus!
