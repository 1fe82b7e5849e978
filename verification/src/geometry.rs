//! The order of a route's geometry: its nodes by ascending place in the
//! sequence.

use vstd::prelude::*;
use vstd::seq_lib::{to_multiset_build, to_multiset_insert};
use crate::protocol::server_protocol::{route_views, RouteNode, RouteNodeView};

verus! {

/// The nodes are in order: none comes before a node with a smaller place in
/// the sequence.
pub open spec fn in_order(nodes: Seq<RouteNodeView>) -> bool {
    forall|i: int, j: int| 0 <= i < j < nodes.len() ==> nodes[i].sequence <= nodes[j].sequence
}

/// Where `node` goes among nodes that are in order: behind every node whose
/// place in the sequence is not greater than its own.
pub open spec fn place(sorted: Seq<RouteNodeView>, node: RouteNodeView) -> int
    decreases sorted.len(),
{
    if sorted.len() == 0 || sorted.last().sequence <= node.sequence {
        sorted.len() as int
    } else {
        place(sorted.drop_last(), node)
    }
}

/// The nodes in order, `node` among them.
pub open spec fn insert_node(sorted: Seq<RouteNodeView>, node: RouteNodeView) -> Seq<
    RouteNodeView,
> {
    sorted.insert(place(sorted, node), node)
}

/// The nodes by ascending place in the sequence. Nodes with the same place
/// keep the order in which they were given.
pub open spec fn sorted_nodes(nodes: Seq<RouteNodeView>) -> Seq<RouteNodeView>
    decreases nodes.len(),
{
    if nodes.len() == 0 {
        Seq::empty()
    } else {
        insert_node(sorted_nodes(nodes.drop_last()), nodes.last())
    }
}

/// The place of a node lies within the nodes, behind every node that is not
/// greater and before every node that is.
pub proof fn lemma_place(sorted: Seq<RouteNodeView>, node: RouteNodeView)
    ensures
        0 <= place(sorted, node) <= sorted.len(),
        forall|k: int|
            place(sorted, node) <= k < sorted.len() ==> (#[trigger] sorted[k]).sequence
                > node.sequence,
        place(sorted, node) > 0 ==> sorted[place(sorted, node) - 1].sequence <= node.sequence,
    decreases sorted.len(),
{
    if sorted.len() == 0 || sorted.last().sequence <= node.sequence {
    } else {
        let front = sorted.drop_last();
        lemma_place(front, node);
        assert forall|k: int| place(sorted, node) <= k < sorted.len() implies (#[trigger] sorted[k]).sequence
            > node.sequence by {
            if k < front.len() {
                assert(sorted[k] == front[k]);
            }
        }
        if place(sorted, node) > 0 {
            assert(sorted[place(sorted, node) - 1] == front[place(front, node) - 1]);
        }
    }
}

/// A position behind which every node is greater, and before which the
/// nearest node is not, is the node's place.
pub proof fn lemma_place_is(sorted: Seq<RouteNodeView>, node: RouteNodeView, p: int)
    requires
        0 <= p <= sorted.len(),
        forall|k: int| p <= k < sorted.len() ==> (#[trigger] sorted[k]).sequence > node.sequence,
        p > 0 ==> sorted[p - 1].sequence <= node.sequence,
    ensures
        place(sorted, node) == p,
    decreases sorted.len(),
{
    if sorted.len() == 0 {
    } else if p == sorted.len() {
        assert(sorted.last() == sorted[p - 1]);
    } else {
        let front = sorted.drop_last();
        assert(sorted.last() == sorted[sorted.len() - 1]);
        assert forall|k: int| p <= k < front.len() implies (#[trigger] front[k]).sequence
            > node.sequence by {
            assert(front[k] == sorted[k]);
        }
        if p > 0 {
            assert(front[p - 1] == sorted[p - 1]);
        }
        lemma_place_is(front, node, p);
    }
}

/// Putting a node in its place keeps the nodes in order, and adds that node
/// and nothing else.
pub proof fn lemma_insert_node(sorted: Seq<RouteNodeView>, node: RouteNodeView)
    requires
        in_order(sorted),
    ensures
        in_order(insert_node(sorted, node)),
        insert_node(sorted, node).to_multiset() == sorted.to_multiset().insert(node),
        insert_node(sorted, node).len() == sorted.len() + 1,
{
    lemma_place(sorted, node);
    let p = place(sorted, node);
    let r = insert_node(sorted, node);
    to_multiset_insert(sorted, p, node);
    assert forall|i: int, j: int| 0 <= i < j < r.len() implies r[i].sequence
        <= r[j].sequence by {
        if j < p {
            assert(r[i] == sorted[i] && r[j] == sorted[j]);
        } else if j == p {
            assert(r[i] == sorted[i]);
            if i < p - 1 {
                assert(sorted[i].sequence <= sorted[p - 1].sequence);
            }
        } else if i < p {
            assert(r[i] == sorted[i] && r[j] == sorted[j - 1]);
            if i < j - 1 {
                assert(sorted[i].sequence <= sorted[j - 1].sequence);
            }
        } else if i == p {
            assert(r[j] == sorted[j - 1]);
        } else {
            assert(r[i] == sorted[i - 1] && r[j] == sorted[j - 1]);
        }
    }
}

/// Sorting gives the same nodes, each as often as it was given, in order of
/// their place in the sequence.
pub proof fn lemma_sorted_nodes(nodes: Seq<RouteNodeView>)
    ensures
        in_order(sorted_nodes(nodes)),
        sorted_nodes(nodes).to_multiset() == nodes.to_multiset(),
        sorted_nodes(nodes).len() == nodes.len(),
    decreases nodes.len(),
{
    if nodes.len() == 0 {
        assert(sorted_nodes(nodes) =~= nodes);
    } else {
        let front = nodes.drop_last();
        lemma_sorted_nodes(front);
        lemma_insert_node(sorted_nodes(front), nodes.last());
        to_multiset_build(front, nodes.last());
        assert(front.push(nodes.last()) =~= nodes);
    }
}

/// Nodes that are in order already stay as they are.
pub proof fn lemma_sorted_nodes_of_ordered(nodes: Seq<RouteNodeView>)
    requires
        in_order(nodes),
    ensures
        sorted_nodes(nodes) == nodes,
    decreases nodes.len(),
{
    if nodes.len() > 0 {
        let front = nodes.drop_last();
        assert forall|i: int, j: int| 0 <= i < j < front.len() implies front[i].sequence
            <= front[j].sequence by {
            assert(front[i] == nodes[i] && front[j] == nodes[j]);
        }
        lemma_sorted_nodes_of_ordered(front);
        if front.len() > 0 {
            assert(front.last() == nodes[nodes.len() - 2]);
            assert(nodes.last() == nodes[nodes.len() - 1]);
        }
        assert(place(front, nodes.last()) == front.len());
        assert(front.insert(front.len() as int, nodes.last()) =~= nodes);
    } else {
        assert(sorted_nodes(nodes) =~= nodes);
    }
}

/// The nodes by ascending place in the sequence; nodes with the same place
/// keep their order.
pub fn sort_route(nodes: &Vec<RouteNode>) -> (r: Vec<RouteNode>)
    ensures
        route_views(r@) == sorted_nodes(route_views(nodes@)),
        in_order(route_views(r@)),
        route_views(r@).to_multiset() == route_views(nodes@).to_multiset(),
        r@.len() == nodes@.len(),
{
    let ghost all = route_views(nodes@);
    let mut r: Vec<RouteNode> = Vec::new();
    let mut i: usize = 0;
    proof {
        assert(route_views(r@) =~= Seq::<RouteNodeView>::empty());
        assert(all.take(0) =~= Seq::<RouteNodeView>::empty());
    }
    while i < nodes.len()
        invariant
            i <= nodes.len(),
            all == route_views(nodes@),
            route_views(r@) == sorted_nodes(all.take(i as int)),
            r@.len() == i,
        decreases nodes.len() - i,
    {
        let node = nodes[i].clone();
        let ghost before = route_views(r@);
        let mut p: usize = r.len();
        while p > 0 && r[p - 1].sequence > node.sequence
            invariant
                p <= r.len(),
                before == route_views(r@),
                forall|k: int| p <= k < before.len() ==> (#[trigger] before[k]).sequence
                    > node.sequence,
            decreases p,
        {
            proof {
                assert(before[p - 1] == r@[p - 1]@);
            }
            p -= 1;
        }
        proof {
            if p > 0 {
                assert(before[p - 1] == r@[p - 1]@);
            }
            lemma_place_is(before, node@, p as int);
            assert(all.take(i + 1).drop_last() =~= all.take(i as int));
            assert(all.take(i + 1).last() == node@);
        }
        r.insert(p, node);
        proof {
            assert(route_views(r@) =~= before.insert(p as int, node@));
        }
        i += 1;
    }
    proof {
        assert(all.take(nodes.len() as int) =~= all);
        lemma_sorted_nodes(all);
        assert(route_views(r@).len() == r@.len());
    }
    r
}

} // verus!
