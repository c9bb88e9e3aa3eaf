//! Properties that relate the registry and the connection handler.
use vstd::prelude::*;

use crate::handler::{lossy_utf8, reaction, ReadEvent, Reaction};
use crate::registry::{fan_out_order, Registry};

verus! {

/// A change in the set of connections, as the registry sees it.
pub ghost enum ConnectionEvent<H> {
    /// The acceptor took a new connection and registered this handle.
    Accepted(H),
    /// The handler of the connection at this position ended.
    Closed(nat),
}

/// The registry's contents after `events`, starting from `start`. Accepting a
/// connection is `Registry::register`; a handler that ends has no access to
/// the registry but to read it, so a close changes nothing.
pub open spec fn registry_after<H>(start: Seq<H>, events: Seq<ConnectionEvent<H>>) -> Seq<H>
    decreases events.len(),
{
    if events.len() == 0 {
        start
    } else {
        let before = registry_after(start, events.drop_last());
        match events.last() {
            ConnectionEvent::Accepted(h) => before.push(h),
            ConnectionEvent::Closed(_) => before,
        }
    }
}

/// How many connections `events` accepts.
pub open spec fn accepted_count<H>(events: Seq<ConnectionEvent<H>>) -> nat
    decreases events.len(),
{
    if events.len() == 0 {
        0
    } else {
        accepted_count(events.drop_last()) + match events.last() {
            ConnectionEvent::Accepted(_) => 1nat,
            ConnectionEvent::Closed(_) => 0nat,
        }
    }
}

/// The registry is append-only: after any sequence of accepted and closed
/// connections it holds one entry more than at the start for each accepted
/// connection, however many have closed, and what it held after any earlier
/// part of the sequence is still its beginning.
pub proof fn lemma_registry_append_only<H>(start: Seq<H>, events: Seq<ConnectionEvent<H>>)
    ensures
        registry_after(start, events).len() == start.len() + accepted_count(events),
        forall|j: int|
            0 <= j <= events.len() ==> {
                let earlier = #[trigger] registry_after(start, events.take(j));
                &&& earlier.len() <= registry_after(start, events).len()
                &&& registry_after(start, events).take(earlier.len() as int) == earlier
            },
    decreases events.len(),
{
    if events.len() == 0 {
        assert forall|j: int| 0 <= j <= events.len() implies {
            let earlier = #[trigger] registry_after(start, events.take(j));
            &&& earlier.len() <= registry_after(start, events).len()
            &&& registry_after(start, events).take(earlier.len() as int) == earlier
        } by {
            assert(events.take(j) =~= events);
            assert(start.take(start.len() as int) =~= start);
        }
    } else {
        let prev = events.drop_last();
        lemma_registry_append_only(start, prev);
        let now = registry_after(start, events);
        let before = registry_after(start, prev);
        assert(now.take(before.len() as int) =~= before);
        assert forall|j: int| 0 <= j <= events.len() implies {
            let earlier = #[trigger] registry_after(start, events.take(j));
            &&& earlier.len() <= registry_after(start, events).len()
            &&& registry_after(start, events).take(earlier.len() as int) == earlier
        } by {
            if j == events.len() {
                assert(events.take(j) =~= events);
                assert(now.take(now.len() as int) =~= now);
            } else {
                assert(events.take(j) =~= prev.take(j));
                let earlier = registry_after(start, prev.take(j));
                assert(earlier.len() <= before.len());
                assert(before.take(earlier.len() as int) == earlier);
                assert(now.take(earlier.len() as int) =~= before.take(earlier.len() as int));
            }
        }
    }
}

/// Fan-out: a non-empty chunk read from any registered client is broadcast as
/// that chunk decoded on its own, and the broadcast writes it to every
/// registered handle exactly once, in registration order, the sender's included.
pub proof fn lemma_fan_out<H>(clients: Registry<H>, sender: int, buffer: Seq<u8>, n: usize)
    requires
        0 <= sender < clients@.len(),
        clients@.len() <= usize::MAX,
        0 < n <= buffer.len(),
    ensures
        reaction(buffer, ReadEvent::Received(n)) == Reaction::Broadcast(
            lossy_utf8(buffer.take(n as int)),
        ),
        fan_out_order(clients@.len()).len() == clients@.len(),
        forall|i: int|
            0 <= i < clients@.len() ==> #[trigger] fan_out_order(clients@.len())[i] as int == i,
        fan_out_order(clients@.len())[sender] as int == sender,
{
}

/// No framing: two reads are broadcast as two messages, each the decoding of
/// its own chunk alone; nothing of the first read is carried into the second.
pub proof fn lemma_no_reassembly(first: Seq<u8>, n1: usize, second: Seq<u8>, n2: usize)
    requires
        0 < n1 <= first.len(),
        0 < n2 <= second.len(),
    ensures
        reaction(first, ReadEvent::Received(n1)) == Reaction::Broadcast(
            lossy_utf8(first.take(n1 as int)),
        ),
        reaction(second, ReadEvent::Received(n2)) == Reaction::Broadcast(
            lossy_utf8(second.take(n2 as int)),
        ),
{
}

} // verus!
