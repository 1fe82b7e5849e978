//! The store, as far as the hub decides about it: where each question is put,
//! and what is made of the shapes that come back.

use vstd::prelude::*;
use crate::gtfs::transit_static::Shape;
use crate::geometry::{in_order, lemma_sorted_nodes, sort_route, sorted_nodes};
use crate::protocol::server_protocol::{route_views, RouteNode, RouteNodeView};
use crate::route::{StoreQuery, StoreQueryView};

verus! {

/// The name of the database that holds the static transit data.
pub open spec fn static_database_text() -> Seq<char> {
    "trafiklab-static-data"@
}

/// The name of the database that holds the static transit data.
pub fn static_database() -> (name: String)
    ensures
        name@ == static_database_text(),
{
    "trafiklab-static-data".to_owned()
}

/// The collection in which a question is looked up.
pub open spec fn collection_text(query: StoreQueryView) -> Seq<char> {
    match query {
        StoreQueryView::RouteByShortName(_) => "routes"@,
        StoreQueryView::RouteById(_) => "routes"@,
        StoreQueryView::TripByRouteId(_) => "trips"@,
        StoreQueryView::TripById(_) => "trips"@,
        StoreQueryView::ShapesById(_) => "shapes"@,
    }
}

/// The field that a question compares.
pub open spec fn field_text(query: StoreQueryView) -> Seq<char> {
    match query {
        StoreQueryView::RouteByShortName(_) => "route_short_name"@,
        StoreQueryView::RouteById(_) => "route_id"@,
        StoreQueryView::TripByRouteId(_) => "route_id"@,
        StoreQueryView::TripById(_) => "trip_id"@,
        StoreQueryView::ShapesById(_) => "shape_id"@,
    }
}

/// The value that a question looks for.
pub open spec fn wanted_text(query: StoreQueryView) -> Seq<char> {
    match query {
        StoreQueryView::RouteByShortName(s) => s,
        StoreQueryView::RouteById(s) => s,
        StoreQueryView::TripByRouteId(s) => s,
        StoreQueryView::TripById(s) => s,
        StoreQueryView::ShapesById(s) => s,
    }
}

/// The collection in which a question is looked up.
pub fn collection(query: &StoreQuery) -> (name: String)
    ensures
        name@ == collection_text(query@),
{
    match query {
        StoreQuery::RouteByShortName(_) => "routes".to_owned(),
        StoreQuery::RouteById(_) => "routes".to_owned(),
        StoreQuery::TripByRouteId(_) => "trips".to_owned(),
        StoreQuery::TripById(_) => "trips".to_owned(),
        StoreQuery::ShapesById(_) => "shapes".to_owned(),
    }
}

/// The field that a question compares.
pub fn field(query: &StoreQuery) -> (name: String)
    ensures
        name@ == field_text(query@),
{
    match query {
        StoreQuery::RouteByShortName(_) => "route_short_name".to_owned(),
        StoreQuery::RouteById(_) => "route_id".to_owned(),
        StoreQuery::TripByRouteId(_) => "route_id".to_owned(),
        StoreQuery::TripById(_) => "trip_id".to_owned(),
        StoreQuery::ShapesById(_) => "shape_id".to_owned(),
    }
}

/// The value that a question looks for.
pub fn wanted(query: &StoreQuery) -> (value: String)
    ensures
        value@ == wanted_text(query@),
{
    match query {
        StoreQuery::RouteByShortName(s) => s.clone(),
        StoreQuery::RouteById(s) => s.clone(),
        StoreQuery::TripByRouteId(s) => s.clone(),
        StoreQuery::TripById(s) => s.clone(),
        StoreQuery::ShapesById(s) => s.clone(),
    }
}

/// The route node that a shape point gives: its coordinates and its place in
/// the sequence.
pub open spec fn node_view(shape: Shape) -> RouteNodeView {
    RouteNodeView {
        lat: shape.shape_pt_lat@,
        lng: shape.shape_pt_lon@,
        sequence: shape.shape_pt_sequence as i32,
    }
}

/// A shape point fits a route node when its place in the sequence does.
pub open spec fn fits(shape: Shape) -> bool {
    shape.shape_pt_sequence <= i32::MAX
}

/// Every shape point fits a route node.
pub open spec fn all_fit(shapes: Seq<Shape>) -> bool {
    forall|i: int| 0 <= i < shapes.len() ==> fits(#[trigger] shapes[i])
}

/// The route nodes that the shape points give, one for each, in the points'
/// order.
pub open spec fn nodes_of(shapes: Seq<Shape>) -> Seq<RouteNodeView> {
    shapes.map_values(|shape: Shape| node_view(shape))
}

/// The geometry that an answer of the store gives: the nodes of its shape
/// points by ascending place in the sequence. There is none where the store
/// failed, and none where a point does not fit a route node: such an answer
/// counts as a failure of the store.
pub open spec fn route_of(answer: Option<Vec<Shape>>) -> Option<Seq<RouteNodeView>> {
    match answer {
        Some(shapes) => if all_fit(shapes@) {
            Some(sorted_nodes(nodes_of(shapes@)))
        } else {
            None
        },
        None => None,
    }
}

/// The route node that a shape point gives, where the point fits one.
pub fn node_from_shape(shape: &Shape) -> (r: Option<RouteNode>)
    ensures
        r is Some <==> fits(*shape),
        r matches Some(n) ==> n@ == node_view(*shape),
{
    if shape.shape_pt_sequence <= 0x7fff_ffff {
        Some(
            RouteNode {
                lat: shape.shape_pt_lat.clone(),
                lng: shape.shape_pt_lon.clone(),
                sequence: shape.shape_pt_sequence as i32,
            },
        )
    } else {
        None
    }
}

/// The ordered geometry of the shape points that the store answered with:
/// one node for each point, by ascending place in the sequence. An answer
/// with a point that fits no route node is taken as a failure of the store.
pub fn get_shapes(answer: &Option<Vec<Shape>>) -> (r: Option<Vec<RouteNode>>)
    ensures
        r is Some <==> route_of(*answer) is Some,
        r matches Some(nodes) ==> {
            &&& Some(route_views(nodes@)) == route_of(*answer)
            &&& in_order(route_views(nodes@))
            &&& answer matches Some(shapes) && nodes@.len() == shapes@.len() && route_views(
                nodes@,
            ).to_multiset() == nodes_of(shapes@).to_multiset()
        },
{
    let shapes = match answer {
        Some(shapes) => shapes,
        None => {
            return None;
        },
    };
    proof {
        assert(*answer == Some(*shapes));
    }
    let mut nodes: Vec<RouteNode> = Vec::new();
    let mut i: usize = 0;
    proof {
        assert(route_views(nodes@) =~= nodes_of(shapes@.take(0)));
    }
    while i < shapes.len()
        invariant
            i <= shapes.len(),
            *answer == Some(*shapes),
            all_fit(shapes@.take(i as int)),
            route_views(nodes@) == nodes_of(shapes@.take(i as int)),
        decreases shapes.len() - i,
    {
        let ghost before = route_views(nodes@);
        match node_from_shape(&shapes[i]) {
            Some(n) => {
                let ghost view = n@;
                nodes.push(n);
                proof {
                    assert(route_views(nodes@) =~= before.push(view));
                    assert(nodes_of(shapes@.take(i + 1)) =~= nodes_of(shapes@.take(i as int)).push(
                        node_view(shapes@[i as int]),
                    ));
                    assert forall|k: int| 0 <= k < i + 1 implies fits(
                        #[trigger] shapes@.take(i + 1)[k],
                    ) by {
                        if k < i {
                            assert(shapes@.take(i + 1)[k] == shapes@.take(i as int)[k]);
                        }
                    }
                }
            },
            None => {
                proof {
                    assert(!fits(shapes@[i as int]));
                    assert(!all_fit(shapes@));
                }
                return None;
            },
        }
        i += 1;
    }
    proof {
        assert(shapes@.take(shapes.len() as int) =~= shapes@);
        lemma_sorted_nodes(nodes_of(shapes@));
    }
    Some(sort_route(&nodes))
}

} // verus!
