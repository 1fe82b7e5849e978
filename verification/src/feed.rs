//! One feed tick: from the entities of the feed to the vehicles that are
//! sent out, and the store questions that find each vehicle's line.

use vstd::prelude::*;
use crate::gtfs::transit_realtime::{FeedEntity, FeedMessage};
use crate::gtfs::transit_static::{Route, Trip};
use crate::messages::EchoPositions;
use crate::protocol::server_protocol::{vehicle_views, Vehicle, VehicleView};
use crate::route::{StoreQuery, StoreQueryView};

verus! {

/// What follows a fetch of the feed: the positions are echoed out where the
/// fetch succeeded, and the tick is skipped where it failed.
pub fn echo_after_fetch(fetched: &Result<(), String>) -> (r: Option<EchoPositions>)
    ensures
        r is Some <==> *fetched is Ok,
{
    match fetched {
        Ok(_) => Some(EchoPositions),
        Err(_) => None,
    }
}

/// The vehicle that an entity of the feed describes. An entity gives a
/// vehicle only where it names the vehicle, says where it is and says which
/// trip it is on; its line is not known yet.
pub open spec fn vehicle_of(entity: FeedEntity) -> Option<VehicleView> {
    match entity.vehicle {
        Some(v) => match (v.vehicle, v.position, v.trip) {
            (Some(descriptor), Some(position), Some(trip)) => match (
                descriptor.id,
                trip.trip_id,
            ) {
                (Some(id), Some(trip_id)) => Some(
                    VehicleView {
                        descriptor_id: id@,
                        line: None,
                        trip_id: Some(trip_id@),
                        position,
                    },
                ),
                _ => None,
            },
            _ => None,
        },
        None => None,
    }
}

/// The vehicles that the entities describe, in the entities' order.
pub open spec fn feed_vehicles(entities: Seq<FeedEntity>) -> Seq<VehicleView>
    decreases entities.len(),
{
    if entities.len() == 0 {
        Seq::empty()
    } else {
        let rest = feed_vehicles(entities.drop_last());
        match vehicle_of(entities.last()) {
            Some(v) => rest.push(v),
            None => rest,
        }
    }
}

/// The vehicle that an entity of the feed describes, if it describes one.
pub fn vehicle_from_entity(entity: &FeedEntity) -> (r: Option<Vehicle>)
    ensures
        r is Some <==> vehicle_of(*entity) is Some,
        r matches Some(v) ==> Some(v@) == vehicle_of(*entity),
{
    match &entity.vehicle {
        Some(v) => match (&v.vehicle, &v.position, &v.trip) {
            (Some(descriptor), Some(position), Some(trip)) => match (
                &descriptor.id,
                &trip.trip_id,
            ) {
                (Some(id), Some(trip_id)) => Some(
                    Vehicle {
                        descriptor_id: id.clone(),
                        line: None,
                        trip_id: Some(trip_id.clone()),
                        position: *position,
                    },
                ),
                _ => None,
            },
            _ => None,
        },
        None => None,
    }
}

/// The vehicles of a feed message, in the feed's order. Entities that give
/// no vehicle are left out.
pub fn vehicles_from_feed(feed: &FeedMessage) -> (r: Vec<Vehicle>)
    ensures
        vehicle_views(r@) == feed_vehicles(feed.entity@),
{
    let mut r: Vec<Vehicle> = Vec::new();
    let mut i: usize = 0;
    proof {
        assert(vehicle_views(r@) =~= Seq::<VehicleView>::empty());
        assert(feed.entity@.take(0) =~= Seq::<FeedEntity>::empty());
    }
    while i < feed.entity.len()
        invariant
            i <= feed.entity.len(),
            vehicle_views(r@) == feed_vehicles(feed.entity@.take(i as int)),
        decreases feed.entity.len() - i,
    {
        let ghost before = vehicle_views(r@);
        proof {
            assert(feed.entity@.take(i + 1).drop_last() =~= feed.entity@.take(i as int));
            assert(feed.entity@.take(i + 1).last() == feed.entity@[i as int]);
        }
        match vehicle_from_entity(&feed.entity[i]) {
            Some(v) => {
                let ghost view = v@;
                r.push(v);
                proof {
                    assert(vehicle_views(r@) =~= before.push(view));
                }
            },
            None => {},
        }
        i += 1;
    }
    proof {
        assert(feed.entity@.take(feed.entity.len() as int) =~= feed.entity@);
    }
    r
}

/// The question that finds the trip of a vehicle: none for a vehicle that is
/// on no trip.
pub fn trip_query(vehicle: &Vehicle) -> (r: Option<StoreQuery>)
    ensures
        r is Some <==> vehicle@.trip_id is Some,
        r matches Some(q) ==> Some(q@) == match vehicle@.trip_id {
            Some(id) => Some(StoreQueryView::TripById(id)),
            None => None,
        },
{
    match &vehicle.trip_id {
        Some(id) => Some(StoreQuery::TripById(id.clone())),
        None => None,
    }
}

/// The question that finds the route of a trip: none where the trip was not
/// found.
pub fn route_query(trip: &Option<Trip>) -> (r: Option<StoreQuery>)
    ensures
        r is Some <==> trip is Some,
        r matches Some(q) ==> trip matches Some(t) && q@ == StoreQueryView::RouteById(t.route_id@),
{
    match trip {
        Some(t) => Some(StoreQuery::RouteById(t.route_id.clone())),
        None => None,
    }
}

/// Gives a vehicle the short name of its route as its line. Where the route
/// was not found, the vehicle is left as it is.
pub fn set_line(vehicle: &mut Vehicle, route: &Option<Route>)
    ensures
        final(vehicle)@ == match *route {
            Some(r) => VehicleView { line: Some(r.route_short_name@), ..old(vehicle)@ },
            None => old(vehicle)@,
        },
{
    match route {
        Some(r) => {
            vehicle.line = Some(r.route_short_name.clone());
        },
        None => {},
    }
}

} // verus!
