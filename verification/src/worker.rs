//! The delivery worker's decisions: which write comes next, and what to make
//! of its outcome.
//!
//! The worker takes payloads from the queue one at a time and describes one
//! write for each. The outcome of a write, good or bad, ends the matter: the
//! payload is gone and the next one is taken. Nothing is sent twice.

use vstd::prelude::*;

use crate::client::InfClient;
use crate::error::InfError;
use crate::queue::{dequeued, HandoffQueue, Take};
use crate::transport::{headers_ok, PostRequest, PostRequestView, Reply};

verus! {

/// Where the worker stands.
#[derive(Debug, Clone, Copy, PartialEq, Eq, Structural)]
pub enum WorkerState {
    /// The worker takes payloads as they come.
    Running,
    /// The queue was closed and is empty: the worker has ended.
    Stopped,
}

/// What the worker does next.
pub enum Delivery {
    /// Send this request, once, and tell the worker what came of it.
    Write(PostRequest),
    /// The write for the payload taken could not be addressed. The payload is
    /// gone; report the failure.
    Failed(InfError),
    /// Nothing waits. Come back when the queue has something or is closed.
    Wait,
    /// The worker has ended.
    Stop,
}

/// What the worker does next, as mathematical text.
pub enum DeliveryView {
    /// Send this request.
    Write(PostRequestView),
    /// The write could not be addressed, for the reason given.
    Failed(Seq<char>),
    /// Nothing waits.
    Wait,
    /// The worker has ended.
    Stop,
}

impl View for Delivery {
    type V = DeliveryView;

    open spec fn view(&self) -> DeliveryView {
        match self {
            Delivery::Write(request) => DeliveryView::Write(request@),
            Delivery::Failed(error) => DeliveryView::Failed(error.message()),
            Delivery::Wait => DeliveryView::Wait,
            Delivery::Stop => DeliveryView::Stop,
        }
    }
}

/// The one write that a payload gets.
pub open spec fn write_for(client: InfClient, bucket: Seq<char>, payload: Seq<char>) -> DeliveryView {
    match client.write_spec(bucket, payload) {
        Ok(request) => DeliveryView::Write(request),
        Err(reason) => DeliveryView::Failed(reason),
    }
}

/// What a worker in `state` does when it looks at the queue.
pub open spec fn next_delivery(
    client: InfClient,
    bucket: Seq<char>,
    state: WorkerState,
    queue: Seq<Seq<char>>,
    closed: bool,
) -> DeliveryView {
    if state == WorkerState::Stopped {
        DeliveryView::Stop
    } else if queue.len() > 0 {
        write_for(client, bucket, queue[0])
    } else if closed {
        DeliveryView::Stop
    } else {
        DeliveryView::Wait
    }
}

/// The queue after a worker in `state` looked at it.
pub open spec fn next_queue(state: WorkerState, queue: Seq<Seq<char>>) -> Seq<Seq<char>> {
    if state == WorkerState::Stopped {
        queue
    } else {
        dequeued(queue)
    }
}

/// Where a worker in `state` stands after it looked at the queue.
pub open spec fn next_state(state: WorkerState, queue: Seq<Seq<char>>, closed: bool) -> WorkerState {
    if state == WorkerState::Running && (queue.len() > 0 || !closed) {
        WorkerState::Running
    } else {
        WorkerState::Stopped
    }
}

/// What is left to report of a write once its outcome is known: the failure,
/// if it failed, and nothing if it went through.
pub open spec fn report_of(outcome: Result<Seq<char>, Seq<char>>) -> Option<Seq<char>> {
    match outcome {
        Ok(_) => None,
        Err(reason) => Some(reason),
    }
}

/// A failure to report as mathematical text.
pub open spec fn report_view(report: Option<InfError>) -> Option<Seq<char>> {
    match report {
        Some(error) => Some(error.message()),
        None => None,
    }
}

/// The single worker that delivers payloads to one bucket.
pub struct DeliveryWorker {
    client: InfClient,
    bucket: String,
    state: WorkerState,
}

impl DeliveryWorker {
    /// The client that the worker writes with.
    pub closed spec fn client(self) -> InfClient {
        self.client
    }

    /// The bucket that the worker writes to.
    pub closed spec fn bucket(self) -> Seq<char> {
        self.bucket@
    }

    /// Where the worker stands.
    pub closed spec fn state(self) -> WorkerState {
        self.state
    }

    /// A running worker that writes to `bucket` with `client`.
    pub fn new(client: InfClient, bucket: String) -> (worker: Self)
        ensures
            worker.client() == client,
            worker.bucket() == bucket@,
            worker.state() == WorkerState::Running,
    {
        DeliveryWorker { client, bucket, state: WorkerState::Running }
    }

    /// Whether the worker has ended.
    pub fn is_stopped(&self) -> (stopped: bool)
        ensures
            stopped == (self.state() == WorkerState::Stopped),
    {
        match self.state {
            WorkerState::Stopped => true,
            WorkerState::Running => false,
        }
    }

    /// Looks at the queue. A running worker takes the payload that has waited
    /// longest and describes the one write for it; with nothing there it
    /// waits, or ends if the queue is closed. A worker that has ended stays so
    /// and takes nothing.
    pub fn next(&mut self, queue: &mut HandoffQueue) -> (delivery: Delivery)
        ensures
            final(self).client() == old(self).client(),
            final(self).bucket() == old(self).bucket(),
            final(queue).capacity() == old(queue).capacity(),
            final(queue).is_closed() == old(queue).is_closed(),
            delivery@ == next_delivery(
                old(self).client(),
                old(self).bucket(),
                old(self).state(),
                old(queue)@,
                old(queue).is_closed(),
            ),
            final(queue)@ == next_queue(old(self).state(), old(queue)@),
            final(self).state() == next_state(
                old(self).state(),
                old(queue)@,
                old(queue).is_closed(),
            ),
            delivery matches Delivery::Write(request) ==> headers_ok(request@.headers),
    {
        if self.is_stopped() {
            return Delivery::Stop;
        }
        match queue.dequeue() {
            Take::Item(payload) => {
                match self.client.write_point(self.bucket.clone(), payload) {
                    Ok(request) => Delivery::Write(request),
                    Err(error) => Delivery::Failed(error),
                }
            },
            Take::Empty => Delivery::Wait,
            Take::Closed => {
                self.state = WorkerState::Stopped;
                Delivery::Stop
            },
        }
    }

    /// Takes the outcome of the write that was sent and gives what is left to
    /// report: the failure, or nothing. Whatever the outcome, the worker and
    /// the queue stay as they are: the payload is not taken up again.
    pub fn settle(&self, reply: Reply) -> (report: Option<InfError>)
        ensures
            report_view(report) == report_of(reply.outcome()),
    {
        match reply.into_result() {
            Ok(_) => None,
            Err(error) => Some(error),
        }
    }
}

} // verus!
