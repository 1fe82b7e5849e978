//! The visibility rule, and the selection of the vehicles one client sees.
//!
//! Distances between a client's centre and the vehicles are handed in, in
//! millimetres, one for each vehicle and in the vehicles' order.

use vstd::prelude::*;
use crate::protocol::client_protocol::{GeoPosition, GeoPositionView};
use crate::protocol::server_protocol::{vehicle_views, Vehicle, VehicleView};

verus! {

/// A vehicle at `distance` from a client's centre is visible when it is
/// strictly nearer than the greatest distance the client asked for.
pub open spec fn visible(max_distance: u64, distance: u64) -> bool {
    distance < max_distance
}

/// Whether the vehicle at place `j` is visible: its distance is known and
/// passes the rule.
pub open spec fn visible_at(max_distance: u64, distances: Seq<u64>, j: int) -> bool {
    0 <= j < distances.len() && visible(max_distance, distances[j])
}

/// The visible ones among `vehicles`, in their order. A vehicle whose
/// distance is missing is not visible.
pub open spec fn visible_subset(
    max_distance: u64,
    vehicles: Seq<VehicleView>,
    distances: Seq<u64>,
) -> Seq<VehicleView>
    decreases vehicles.len(),
{
    if vehicles.len() == 0 {
        Seq::empty()
    } else {
        let rest = visible_subset(max_distance, vehicles.drop_last(), distances);
        if visible_at(max_distance, distances, vehicles.len() - 1) {
            rest.push(vehicles.last())
        } else {
            rest
        }
    }
}

/// The centre of an area as latitude and longitude, in microdegrees. The
/// coordinates of an area are written with the longitude first; an area with
/// fewer than two coordinates has no centre.
pub open spec fn centre_of(client_geo: GeoPositionView) -> Option<(i32, i32)> {
    if client_geo.coordinates.len() >= 2 {
        Some((client_geo.coordinates[1], client_geo.coordinates[0]))
    } else {
        None
    }
}

/// The centre of an area as latitude and longitude, where it has one.
pub fn centre(client_geo: &GeoPosition) -> (r: Option<(i32, i32)>)
    ensures
        r == centre_of(client_geo@),
{
    if client_geo.position.coordinates.len() >= 2 {
        Some((client_geo.position.coordinates[1], client_geo.position.coordinates[0]))
    } else {
        None
    }
}

/// Whether a vehicle at `distance` millimetres from the client's centre is
/// close enough to be sent to that client.
pub fn filter_vehicle_position(client_geo: &GeoPosition, distance: u64) -> (r: bool)
    ensures
        r == visible(client_geo.max_distance, distance),
{
    distance < client_geo.max_distance
}

/// The vehicles that the client sees, in the order in which they were given.
pub fn visible_vehicles(client_geo: &GeoPosition, vehicles: &Vec<Vehicle>, distances: &Vec<u64>) -> (r:
    Vec<Vehicle>)
    ensures
        vehicle_views(r@) == visible_subset(
            client_geo.max_distance,
            vehicle_views(vehicles@),
            distances@,
        ),
{
    let ghost all = vehicle_views(vehicles@);
    let mut r: Vec<Vehicle> = Vec::new();
    let mut i: usize = 0;
    proof {
        assert(vehicle_views(r@) =~= Seq::<VehicleView>::empty());
        assert(all.take(0) =~= Seq::<VehicleView>::empty());
    }
    while i < vehicles.len()
        invariant
            i <= vehicles.len(),
            all == vehicle_views(vehicles@),
            vehicle_views(r@) == visible_subset(
                client_geo.max_distance,
                all.take(i as int),
                distances@,
            ),
        decreases vehicles.len() - i,
    {
        let ghost before = vehicle_views(r@);
        proof {
            assert(all.take(i + 1).drop_last() =~= all.take(i as int));
            assert(all.take(i + 1).last() == vehicles@[i as int]@);
        }
        if i < distances.len() && filter_vehicle_position(client_geo, distances[i]) {
            r.push(vehicles[i].clone());
            proof {
                assert(vehicle_views(r@) =~= before.push(vehicles@[i as int]@));
            }
        }
        i += 1;
    }
    proof {
        assert(all.take(vehicles.len() as int) =~= all);
    }
    r
}

/// The rule is monotonic in the radius: what is visible within a distance is
/// visible within any greater one.
pub proof fn lemma_visible_monotonic(smaller: u64, greater: u64, distance: u64)
    requires
        smaller <= greater,
        visible(smaller, distance),
    ensures
        visible(greater, distance),
{
}

/// Every vehicle in the selection is one of the vehicles given, at a place
/// where the rule holds; and every such vehicle is in the selection.
pub proof fn lemma_visible_subset_members(
    max_distance: u64,
    vehicles: Seq<VehicleView>,
    distances: Seq<u64>,
)
    ensures
        forall|v: VehicleView| #[trigger]
            visible_subset(max_distance, vehicles, distances).contains(v) <==> exists|j: int|
                0 <= j < vehicles.len() && visible_at(max_distance, distances, j)
                    && #[trigger] vehicles[j] == v,
        visible_subset(max_distance, vehicles, distances).len() <= vehicles.len(),
    decreases vehicles.len(),
{
    let sub = visible_subset(max_distance, vehicles, distances);
    if vehicles.len() == 0 {
        assert forall|v: VehicleView| !(#[trigger] sub.contains(v)) by {}
    } else {
        let front = vehicles.drop_last();
        let rest = visible_subset(max_distance, front, distances);
        let n = vehicles.len() - 1;
        lemma_visible_subset_members(max_distance, front, distances);
        assert forall|v: VehicleView| #[trigger] sub.contains(v) <==> exists|j: int|
            0 <= j < vehicles.len() && visible_at(max_distance, distances, j)
                && #[trigger] vehicles[j] == v by {
            if sub.contains(v) {
                let k = choose|k: int| 0 <= k < sub.len() && sub[k] == v;
                if visible_at(max_distance, distances, n) && k == rest.len() {
                    assert(vehicles[n] == v);
                } else {
                    assert(rest[k] == v);
                    assert(rest.contains(v));
                    let j = choose|j: int|
                        0 <= j < front.len() && visible_at(max_distance, distances, j)
                            && #[trigger] front[j] == v;
                    assert(vehicles[j] == v);
                }
            }
            if exists|j: int|
                0 <= j < vehicles.len() && visible_at(max_distance, distances, j)
                    && #[trigger] vehicles[j] == v {
                let j = choose|j: int|
                    0 <= j < vehicles.len() && visible_at(max_distance, distances, j)
                        && #[trigger] vehicles[j] == v;
                if j == n {
                    assert(sub[rest.len() as int] == v);
                } else {
                    assert(front[j] == v);
                    assert(rest.contains(v));
                    let k = choose|k: int| 0 <= k < rest.len() && rest[k] == v;
                    assert(sub[k] == v);
                }
            }
        }
    }
}

/// Decreasing the radius never shows more: with the same vehicles and
/// distances, every vehicle selected under the smaller radius is selected
/// under the greater one, and the selection is no longer.
pub proof fn lemma_smaller_radius_shows_no_more(
    smaller: u64,
    greater: u64,
    vehicles: Seq<VehicleView>,
    distances: Seq<u64>,
)
    requires
        smaller <= greater,
    ensures
        forall|v: VehicleView| #[trigger]
            visible_subset(smaller, vehicles, distances).contains(v) ==> visible_subset(
                greater,
                vehicles,
                distances,
            ).contains(v),
        visible_subset(smaller, vehicles, distances).len() <= visible_subset(
            greater,
            vehicles,
            distances,
        ).len(),
    decreases vehicles.len(),
{
    lemma_visible_subset_members(smaller, vehicles, distances);
    lemma_visible_subset_members(greater, vehicles, distances);
    assert forall|v: VehicleView| #[trigger]
        visible_subset(smaller, vehicles, distances).contains(v) implies visible_subset(
        greater,
        vehicles,
        distances,
    ).contains(v) by {
        let j = choose|j: int|
            0 <= j < vehicles.len() && visible_at(smaller, distances, j) && #[trigger] vehicles[j]
                == v;
        assert(visible_at(greater, distances, j));
    }
    if vehicles.len() > 0 {
        lemma_smaller_radius_shows_no_more(smaller, greater, vehicles.drop_last(), distances);
    }
}

} // verus!
