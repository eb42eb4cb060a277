//! What holds of the relay as a whole: of many datagrams, many offers and
//! takes, and many writes, in any order in which they can happen.

use vstd::prelude::*;

use crate::client::InfClient;
use crate::queue::{dequeued, enqueued};
use crate::receiver::{is_payload, payload_of, received};
use crate::transport::Reply;
use crate::worker::{
    next_delivery, next_queue, next_state, report_of, write_for, DeliveryView, WorkerState,
};

verus! {

/// One thing that happens to the queue.
pub enum Step {
    /// The receive loop offers a payload.
    Offer(Seq<char>),
    /// The worker takes what has waited longest.
    Take,
}

/// The books of a queue: what it holds, what it has accepted so far and what
/// it has given out so far, each in order.
pub struct Ledger {
    /// What waits, the next to leave first.
    pub queue: Seq<Seq<char>>,
    /// Every payload that was queued, in the order of the offers.
    pub accepted: Seq<Seq<char>>,
    /// Every payload that was taken, in the order of the takes.
    pub delivered: Seq<Seq<char>>,
}

/// The books after one more step on an open queue.
pub open spec fn step(ledger: Ledger, capacity: nat, step: Step) -> Ledger {
    match step {
        Step::Offer(payload) => Ledger {
            queue: enqueued(ledger.queue, capacity, false, payload),
            accepted: if ledger.queue.len() < capacity {
                ledger.accepted.push(payload)
            } else {
                ledger.accepted
            },
            delivered: ledger.delivered,
        },
        Step::Take => Ledger {
            queue: dequeued(ledger.queue),
            accepted: ledger.accepted,
            delivered: if ledger.queue.len() > 0 {
                ledger.delivered.push(ledger.queue[0])
            } else {
                ledger.delivered
            },
        },
    }
}

/// The books of an open queue that started empty, after the steps given.
pub open spec fn run(capacity: nat, steps: Seq<Step>) -> Ledger
    decreases steps.len(),
{
    if steps.len() == 0 {
        Ledger { queue: Seq::empty(), accepted: Seq::empty(), delivered: Seq::empty() }
    } else {
        step(run(capacity, steps.drop_last()), capacity, steps.last())
    }
}

/// First in, first out, nothing lost and nothing doubled: however offers and
/// takes follow one another, what was given out and then what still waits is
/// exactly what was accepted, in the order in which it was accepted. And the
/// queue never holds more than its capacity.
pub proof fn lemma_first_in_first_out(capacity: nat, steps: Seq<Step>)
    ensures
        run(capacity, steps).delivered + run(capacity, steps).queue == run(
            capacity,
            steps,
        ).accepted,
        run(capacity, steps).queue.len() <= capacity,
    decreases steps.len(),
{
    if steps.len() > 0 {
        let before = run(capacity, steps.drop_last());
        let after = run(capacity, steps);
        lemma_first_in_first_out(capacity, steps.drop_last());
        assert(after == step(before, capacity, steps.last()));
        assert(after.delivered + after.queue =~= after.accepted);
    } else {
        assert(run(capacity, steps).delivered + run(capacity, steps).queue =~= run(
            capacity,
            steps,
        ).accepted);
    }
}

/// The queue after every one of the payloads was offered to it, in order.
pub open spec fn offer_all(queue: Seq<Seq<char>>, capacity: nat, payloads: Seq<Seq<char>>) -> Seq<
    Seq<char>,
>
    decreases payloads.len(),
{
    if payloads.len() == 0 {
        queue
    } else {
        enqueued(offer_all(queue, capacity, payloads.drop_last()), capacity, false, payloads.last())
    }
}

/// Where the payloads offered fit into an open queue, all of them are queued,
/// in their order, behind what was there.
pub proof fn lemma_offers_that_fit(queue: Seq<Seq<char>>, capacity: nat, payloads: Seq<Seq<char>>)
    requires
        queue.len() + payloads.len() <= capacity,
    ensures
        offer_all(queue, capacity, payloads) == queue + payloads,
    decreases payloads.len(),
{
    if payloads.len() > 0 {
        lemma_offers_that_fit(queue, capacity, payloads.drop_last());
        assert(queue + payloads =~= (queue + payloads.drop_last()).push(payloads.last()));
    } else {
        assert(queue + payloads =~= queue);
    }
}

/// What a running worker does, write by write, until the queue is empty,
/// together with what it reports of each write once the reply is in. The
/// `i`-th reply answers the `i`-th write.
pub open spec fn deliveries(
    client: InfClient,
    bucket: Seq<char>,
    queue: Seq<Seq<char>>,
    closed: bool,
    replies: Seq<Reply>,
) -> Seq<(DeliveryView, Option<Seq<char>>)>
    decreases queue.len(),
{
    if queue.len() == 0 || replies.len() == 0 {
        Seq::empty()
    } else {
        seq![
            (
                next_delivery(client, bucket, WorkerState::Running, queue, closed),
                report_of(replies[0].outcome()),
            ),
        ] + deliveries(
            client,
            bucket,
            next_queue(WorkerState::Running, queue),
            closed,
            replies.drop_first(),
        )
    }
}

/// One write for each payload, in the order of the queue, whatever the
/// replies are: the `i`-th thing the worker does is the write for the `i`-th
/// payload, and what it reports of it is the failure of the `i`-th reply or
/// nothing. No reply brings a payload back.
pub proof fn lemma_one_write_per_payload(
    client: InfClient,
    bucket: Seq<char>,
    queue: Seq<Seq<char>>,
    closed: bool,
    replies: Seq<Reply>,
)
    requires
        replies.len() == queue.len(),
    ensures
        deliveries(client, bucket, queue, closed, replies).len() == queue.len(),
        forall|i: int|
            0 <= i < queue.len() ==> (#[trigger] deliveries(client, bucket, queue, closed, replies)[i])
                == (write_for(client, bucket, queue[i]), report_of(replies[i].outcome())),
    decreases queue.len(),
{
    if queue.len() > 0 {
        let rest = next_queue(WorkerState::Running, queue);
        assert(rest == queue.drop_first());
        lemma_one_write_per_payload(client, bucket, rest, closed, replies.drop_first());
        let all = deliveries(client, bucket, queue, closed, replies);
        let tail = deliveries(client, bucket, rest, closed, replies.drop_first());
        assert forall|i: int| 0 <= i < queue.len() implies (#[trigger] all[i]) == (
            write_for(client, bucket, queue[i]),
            report_of(replies[i].outcome()),
        ) by {
            if i > 0 {
                assert(all[i] == tail[i - 1]);
                assert(rest[i - 1] == queue[i]);
                assert(replies.drop_first()[i - 1] == replies[i]);
            }
        }
    }
}

/// The order of delivery: payloads that are offered in some order to an
/// empty, open queue with room for them all are written in that order, one
/// write each.
pub proof fn lemma_delivery_order(
    client: InfClient,
    bucket: Seq<char>,
    capacity: nat,
    payloads: Seq<Seq<char>>,
    replies: Seq<Reply>,
)
    requires
        payloads.len() <= capacity,
        replies.len() == payloads.len(),
    ensures
        deliveries(
            client,
            bucket,
            offer_all(Seq::empty(), capacity, payloads),
            false,
            replies,
        ).len() == payloads.len(),
        forall|i: int|
            0 <= i < payloads.len() ==> (#[trigger] deliveries(
                client,
                bucket,
                offer_all(Seq::empty(), capacity, payloads),
                false,
                replies,
            )[i]).0 == write_for(client, bucket, payloads[i]),
{
    lemma_offers_that_fit(Seq::empty(), capacity, payloads);
    assert(Seq::<Seq<char>>::empty() + payloads =~= payloads);
    lemma_one_write_per_payload(client, bucket, payloads, false, replies);
}

/// A datagram that is text reaches an open queue with room as exactly one
/// payload, the text itself, behind what was there.
pub proof fn lemma_text_is_queued_once(queue: Seq<Seq<char>>, capacity: nat, datagram: Seq<u8>)
    requires
        is_payload(datagram),
        queue.len() < capacity,
    ensures
        received(queue, capacity, false, datagram) == queue.push(payload_of(datagram)),
{
}

/// A datagram that is no text leaves no trace: the queue is as it was, and
/// the datagram after it fares as if the bad one had never come.
pub proof fn lemma_bad_datagram_is_harmless(
    queue: Seq<Seq<char>>,
    capacity: nat,
    closed: bool,
    bad: Seq<u8>,
    later: Seq<u8>,
)
    requires
        !is_payload(bad),
    ensures
        received(queue, capacity, closed, bad) == queue,
        received(received(queue, capacity, closed, bad), capacity, closed, later) == received(
            queue,
            capacity,
            closed,
            later,
        ),
{
}

/// A worker that has ended stays ended and leaves the queue alone; a running
/// worker ends only on a queue that is closed and empty.
pub proof fn lemma_worker_ends_on_closed_empty_queue(
    state: WorkerState,
    queue: Seq<Seq<char>>,
    closed: bool,
)
    ensures
        state == WorkerState::Stopped ==> next_state(state, queue, closed) == WorkerState::Stopped
            && next_queue(state, queue) == queue,
        state == WorkerState::Running ==> (next_state(state, queue, closed) == WorkerState::Stopped
            <==> closed && queue.len() == 0),
{
}

} // verus!
