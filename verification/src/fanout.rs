//! What it means to send one message to each of a set of sessions, when the
//! order in which the sessions are visited is not fixed.

use vstd::prelude::*;
use crate::messages::OutboundView;
use crate::protocol::server_protocol::ServerOutputView;

verus! {

/// `out` holds exactly one message for each session in `recipients`, namely
/// `message` of that session, and nothing else.
pub open spec fn fans_out(
    out: Seq<OutboundView>,
    recipients: Set<u128>,
    message: spec_fn(u128) -> ServerOutputView,
) -> bool {
    &&& forall|k: int|
        0 <= k < out.len() ==> recipients.contains((#[trigger] out[k]).to) && out[k].message
            == message(out[k].to)
    &&& forall|id: u128|
        recipients.contains(id) ==> exists|k: int| 0 <= k < out.len() && (#[trigger] out[k]).to == id
    &&& forall|k1: int, k2: int|
        0 <= k1 < k2 < out.len() ==> (#[trigger] out[k1]).to != (#[trigger] out[k2]).to
}

/// The same, when only the first `n` of the sessions `ids` have been visited.
pub open spec fn fanned(
    out: Seq<OutboundView>,
    ids: Seq<u128>,
    n: int,
    recipients: Set<u128>,
    message: spec_fn(u128) -> ServerOutputView,
) -> bool {
    &&& 0 <= n <= ids.len()
    &&& forall|k: int|
        0 <= k < out.len() ==> {
            &&& recipients.contains((#[trigger] out[k]).to)
            &&& out[k].message == message(out[k].to)
            &&& exists|j: int| 0 <= j < n && #[trigger] ids[j] == out[k].to
        }
    &&& forall|j: int|
        0 <= j < n && recipients.contains(#[trigger] ids[j]) ==> exists|k: int|
            0 <= k < out.len() && (#[trigger] out[k]).to == ids[j]
    &&& forall|k1: int, k2: int|
        0 <= k1 < k2 < out.len() ==> (#[trigger] out[k1]).to != (#[trigger] out[k2]).to
}

/// Before any session is visited, nothing has been sent.
pub proof fn lemma_fanned_start(
    ids: Seq<u128>,
    recipients: Set<u128>,
    message: spec_fn(u128) -> ServerOutputView,
)
    ensures
        fanned(Seq::<OutboundView>::empty(), ids, 0, recipients, message),
{
}

/// Visiting a session that is no recipient sends nothing.
pub proof fn lemma_fanned_skip(
    out: Seq<OutboundView>,
    ids: Seq<u128>,
    n: int,
    recipients: Set<u128>,
    message: spec_fn(u128) -> ServerOutputView,
)
    requires
        fanned(out, ids, n, recipients, message),
        n < ids.len(),
        !recipients.contains(ids[n]),
    ensures
        fanned(out, ids, n + 1, recipients, message),
{
    assert forall|k: int| 0 <= k < out.len() implies exists|j: int|
        0 <= j < n + 1 && #[trigger] ids[j] == (#[trigger] out[k]).to by {
        let j = choose|j: int| 0 <= j < n && #[trigger] ids[j] == out[k].to;
        assert(0 <= j < n + 1 && ids[j] == out[k].to);
    }
}

/// Visiting a recipient sends it its message.
pub proof fn lemma_fanned_push(
    out: Seq<OutboundView>,
    ids: Seq<u128>,
    n: int,
    recipients: Set<u128>,
    message: spec_fn(u128) -> ServerOutputView,
)
    requires
        fanned(out, ids, n, recipients, message),
        n < ids.len(),
        ids.no_duplicates(),
        recipients.contains(ids[n]),
    ensures
        fanned(
            out.push(OutboundView { to: ids[n], message: message(ids[n]) }),
            ids,
            n + 1,
            recipients,
            message,
        ),
{
    let next = out.push(OutboundView { to: ids[n], message: message(ids[n]) });
    assert forall|k: int| 0 <= k < next.len() implies {
        &&& recipients.contains((#[trigger] next[k]).to)
        &&& next[k].message == message(next[k].to)
        &&& exists|j: int| 0 <= j < n + 1 && #[trigger] ids[j] == next[k].to
    } by {
        if k < out.len() {
            assert(next[k] == out[k]);
            let j = choose|j: int| 0 <= j < n && #[trigger] ids[j] == out[k].to;
            assert(0 <= j < n + 1 && ids[j] == next[k].to);
        } else {
            assert(0 <= n < n + 1 && ids[n] == next[k].to);
        }
    }
    assert forall|j: int| 0 <= j < n + 1 && recipients.contains(#[trigger] ids[j]) implies exists|
        k: int,
    | 0 <= k < next.len() && (#[trigger] next[k]).to == ids[j] by {
        if j < n {
            let k = choose|k: int| 0 <= k < out.len() && (#[trigger] out[k]).to == ids[j];
            assert(next[k] == out[k]);
        } else {
            assert(next[out.len() as int].to == ids[j]);
        }
    }
    assert forall|k1: int, k2: int| 0 <= k1 < k2 < next.len() implies (#[trigger] next[k1]).to != (
    #[trigger] next[k2]).to by {
        assert(next[k1] == out[k1]);
        if k2 < out.len() {
            assert(next[k2] == out[k2]);
        } else {
            let j = choose|j: int| 0 <= j < n && #[trigger] ids[j] == out[k1].to;
            assert(ids[j] != ids[n]);
        }
    }
}

/// Once every session has been visited, every recipient has its message.
pub proof fn lemma_fanned_done(
    out: Seq<OutboundView>,
    ids: Seq<u128>,
    recipients: Set<u128>,
    message: spec_fn(u128) -> ServerOutputView,
)
    requires
        fanned(out, ids, ids.len() as int, recipients, message),
        recipients.subset_of(ids.to_set()),
    ensures
        fans_out(out, recipients, message),
{
    assert forall|id: u128| recipients.contains(id) implies exists|k: int|
        0 <= k < out.len() && (#[trigger] out[k]).to == id by {
        assert(ids.to_set().contains(id));
        let j = choose|j: int| 0 <= j < ids.len() && ids[j] == id;
        assert(recipients.contains(ids[j]));
    }
}

} // verus!
