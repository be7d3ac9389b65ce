//! The executor's deterministic core: draining ready work.
//!
//! Every scheduling strategy — the cooperative single-threaded pool, the
//! worker-thread pool, the OS-thread-backed async runtime — boils down to an
//! order in which the endpoints' ready queues are polled. [`drain`] turns the
//! per-endpoint ready queues and one such poll order into the dispatch batch
//! the node's run loop consumes, and
//! [`lemma_drain_preserves_queue_order`] shows that the strategies are
//! interchangeable: whatever the poll order, each queue's events enter the
//! batch in their own order, so a subscription's messages are dispatched in
//! transport-delivery order under every strategy.

use vstd::prelude::*;

use crate::event::Event;
use crate::laws::{delivered_payloads, one_delivery};

verus! {

/// The batch one drain dispatches: each poll takes the front of the polled
/// queue; polling an empty or unknown queue finds no ready work and takes
/// nothing.
pub open spec fn drain_order(queues: Seq<Seq<Event>>, schedule: Seq<usize>) -> Seq<Event>
    decreases schedule.len(),
{
    if schedule.len() == 0 {
        Seq::empty()
    } else {
        let q = schedule[0] as int;
        if 0 <= q < queues.len() && queues[q].len() > 0 {
            seq![queues[q][0]] + drain_order(
                queues.update(q, queues[q].skip(1)),
                schedule.skip(1),
            )
        } else {
            drain_order(queues, schedule.skip(1))
        }
    }
}

/// The value of each ready queue.
pub open spec fn queue_views(queues: Seq<Vec<Event>>) -> Seq<Seq<Event>> {
    queues.map_values(|v: Vec<Event>| v@)
}

/// How often the schedule polls queue `i`.
pub open spec fn polls_of(schedule: Seq<usize>, i: int) -> nat
    decreases schedule.len(),
{
    if schedule.len() == 0 {
        0
    } else {
        (if schedule[0] as int == i {
            1nat
        } else {
            0nat
        }) + polls_of(schedule.skip(1), i)
    }
}

/// Drains the ready queues in poll order into one dispatch batch for
/// [`crate::node::Node::spin`]. The scheduling strategy supplies the poll
/// order; the batch is exactly [`drain_order`] of it.
pub fn drain(queues: Vec<Vec<Event>>, schedule: &Vec<usize>) -> (batch: Vec<Event>)
    ensures
        batch@ == drain_order(queue_views(queues@), schedule@),
{
    let mut queues = queues;
    let ghost initial = queue_views(queues@);
    let mut batch: Vec<Event> = Vec::new();
    let mut k: usize = 0;
    proof {
        assert(schedule@.skip(0) =~= schedule@);
        assert(batch@ + drain_order(initial, schedule@) =~= drain_order(initial, schedule@));
    }
    while k < schedule.len()
        invariant
            k <= schedule@.len(),
            batch@ + drain_order(queue_views(queues@), schedule@.skip(k as int)) == drain_order(
                initial,
                schedule@,
            ),
        decreases schedule@.len() - k,
    {
        let ghost views = queue_views(queues@);
        let ghost rest = schedule@.skip(k as int);
        proof {
            assert(rest[0] == schedule@[k as int]);
            assert(rest.skip(1) =~= schedule@.skip(k as int + 1));
        }
        let q = schedule[k];
        if q < queues.len() && queues[q].len() > 0 {
            let ghost batch0 = batch@;
            let ev = queues[q].remove(0);
            let ghost picked = ev;
            batch.push(ev);
            proof {
                assert(queues@[q as int]@ =~= views[q as int].skip(1));
                assert(queue_views(queues@) =~= views.update(q as int, views[q as int].skip(1)));
                assert(drain_order(views, rest) == seq![views[q as int][0]] + drain_order(
                    queue_views(queues@),
                    rest.skip(1),
                ));
                assert(batch@ =~= batch0.push(picked));
                assert(batch@ + drain_order(queue_views(queues@), schedule@.skip(k as int + 1))
                    =~= batch0 + drain_order(views, rest));
            }
        } else {
            proof {
                assert(drain_order(views, rest) == drain_order(views, rest.skip(1)));
            }
        }
        k = k + 1;
    }
    proof {
        assert(schedule@.skip(schedule@.len() as int) =~= Seq::<usize>::empty());
        assert(batch@ + drain_order(queue_views(queues@), Seq::<usize>::empty()) =~= batch@);
    }
    batch
}

/// Scheduling strategies preserve per-queue order: if queue `i` holds
/// everything the transport delivered for subscription `ep` and no other
/// queue delivers to `ep`, then — under any poll order that polls queue `i`
/// often enough to empty it — the drained batch delivers to `ep` exactly
/// queue `i`'s payloads, in queue order. Cooperative drains, worker pools
/// and async runtimes differ only in the poll order, so all of them deliver
/// alike.
pub proof fn lemma_drain_preserves_queue_order(
    queues: Seq<Seq<Event>>,
    schedule: Seq<usize>,
    i: int,
    ep: int,
)
    requires
        0 <= i < queues.len(),
        forall|j: int|
            0 <= j < queues.len() && j != i ==> delivered_payloads(#[trigger] queues[j], ep)
                == Seq::<i64>::empty(),
        polls_of(schedule, i) >= queues[i].len(),
    ensures
        delivered_payloads(drain_order(queues, schedule), ep) == delivered_payloads(
            queues[i],
            ep,
        ),
    decreases schedule.len(),
{
    if schedule.len() == 0 {
        assert(queues[i].len() == 0);
        assert(delivered_payloads(queues[i], ep) == Seq::<i64>::empty());
    } else {
        let q = schedule[0] as int;
        if 0 <= q < queues.len() && queues[q].len() > 0 {
            let head = queues[q][0];
            let popped = queues.update(q, queues[q].skip(1));
            let tail = drain_order(popped, schedule.skip(1));
            assert((seq![head] + tail)[0] == head);
            assert((seq![head] + tail).skip(1) =~= tail);
            if q == i {
                lemma_drain_preserves_queue_order(popped, schedule.skip(1), i, ep);
                assert(delivered_payloads(queues[i], ep) == one_delivery(head, ep)
                    + delivered_payloads(queues[i].skip(1), ep));
                assert(delivered_payloads(drain_order(queues, schedule), ep) =~= delivered_payloads(
                    queues[i],
                    ep,
                ));
            } else {
                // Queue `q` delivers nothing to `ep`: neither its head nor
                // its remainder contributes.
                assert(delivered_payloads(queues[q], ep) == one_delivery(head, ep)
                    + delivered_payloads(queues[q].skip(1), ep));
                assert(one_delivery(head, ep) == Seq::<i64>::empty());
                assert(delivered_payloads(queues[q].skip(1), ep) == Seq::<i64>::empty());
                lemma_drain_preserves_queue_order(popped, schedule.skip(1), i, ep);
                assert(delivered_payloads(drain_order(queues, schedule), ep) =~= delivered_payloads(
                    queues[i],
                    ep,
                ));
            }
        } else {
            lemma_drain_preserves_queue_order(queues, schedule.skip(1), i, ep);
        }
    }
}

} // verus!
