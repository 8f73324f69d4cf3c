//! The download queue: requests wait in the order in which they were made,
//! and the one at the head is the only one whose transfer runs.

use vstd::prelude::*;
use std::collections::VecDeque;
use crate::error::TransferError;
use crate::types::DownloadInfo;

verus! {

/// How a request left the queue.
#[derive(Debug, Clone, Copy, PartialEq, Eq, Structural)]
pub enum Outcome {
    Completed,
    Failed(TransferError),
}

/// What happens to the queue.
#[derive(Debug, PartialEq, Eq)]
pub enum QueueEvent {
    /// A request was made.
    Enqueue(DownloadInfo),
    /// The active transfer has finished.
    Finished,
    /// The active transfer has failed.
    Failed(TransferError),
}

/// What an event did: the request that left the queue, with its outcome, and
/// the request whose transfer has to be started now.
#[derive(Debug, PartialEq, Eq)]
pub struct Advance {
    pub settled: Option<(DownloadInfo, Outcome)>,
    pub start: Option<DownloadInfo>,
}

/// The requests in order; the first one, if any, is active.
#[derive(Debug, Clone)]
pub struct DownloadQueue {
    items: VecDeque<DownloadInfo>,
}

impl View for DownloadQueue {
    type V = Seq<DownloadInfo>;

    closed spec fn view(&self) -> Seq<DownloadInfo> {
        self.items@
    }
}

/// The active request of a queue: its head.
pub open spec fn active(queue: Seq<DownloadInfo>) -> Option<DownloadInfo> {
    if queue.len() > 0 {
        Some(queue[0])
    } else {
        None
    }
}

/// The queue without its head.
pub open spec fn advanced(queue: Seq<DownloadInfo>) -> Seq<DownloadInfo> {
    if queue.len() > 0 {
        queue.drop_first()
    } else {
        queue
    }
}

/// The queue after an event.
pub open spec fn after(queue: Seq<DownloadInfo>, event: QueueEvent) -> Seq<DownloadInfo> {
    match event {
        QueueEvent::Enqueue(request) => queue.push(request),
        QueueEvent::Finished => advanced(queue),
        QueueEvent::Failed(_) => advanced(queue),
    }
}

/// The request whose transfer an event starts: the new request where the
/// queue was empty, the new head where the old one left.
pub open spec fn started_by(queue: Seq<DownloadInfo>, event: QueueEvent) -> Option<DownloadInfo> {
    match event {
        QueueEvent::Enqueue(request) => if queue.len() == 0 {
            Some(request)
        } else {
            None
        },
        QueueEvent::Finished => active(advanced(queue)),
        QueueEvent::Failed(_) => active(advanced(queue)),
    }
}

/// The request that an event takes out of the queue, with its outcome.
pub open spec fn settled_by(queue: Seq<DownloadInfo>, event: QueueEvent) -> Option<
    (DownloadInfo, Outcome),
> {
    match event {
        QueueEvent::Enqueue(_) => None,
        QueueEvent::Finished => match active(queue) {
            Some(request) => Some((request, Outcome::Completed)),
            None => None,
        },
        QueueEvent::Failed(error) => match active(queue) {
            Some(request) => Some((request, Outcome::Failed(error))),
            None => None,
        },
    }
}

impl DownloadQueue {
    /// An empty queue.
    pub fn new() -> (queue: DownloadQueue)
        ensures
            queue@.len() == 0,
    {
        DownloadQueue { items: VecDeque::new() }
    }

    /// The number of requests, the active one included.
    pub fn len(&self) -> (n: usize)
        ensures
            n == self@.len(),
    {
        broadcast use vstd::std_specs::vecdeque::axiom_spec_len;

        self.items.len()
    }

    /// Whether no request is left.
    pub fn is_empty(&self) -> (b: bool)
        ensures
            b == (self@.len() == 0),
    {
        self.len() == 0
    }

    /// The request whose transfer is running.
    pub fn active(&self) -> (head: Option<&DownloadInfo>)
        ensures
            match head {
                Some(request) => active(self@) == Some(*request),
                None => active(self@) is None,
            },
    {
        if self.len() > 0 {
            Some(&self.items[0])
        } else {
            None
        }
    }

    /// A copy of the request whose transfer is running.
    fn head(&self) -> (head: Option<DownloadInfo>)
        ensures
            head == active(self@),
    {
        match self.active() {
            Some(request) => Some(request.clone()),
            None => None,
        }
    }

    /// Takes the head out of the queue, if there is one.
    fn advance(&mut self) -> (head: Option<DownloadInfo>)
        ensures
            head == active(old(self)@),
            final(self)@ == advanced(old(self)@),
    {
        let head = self.items.pop_front();
        assert(final(self)@ == advanced(old(self)@));
        head
    }

    /// Appends a request. Where the queue was empty the request becomes
    /// active at once, and is returned for its transfer to be started.
    pub fn enqueue(&mut self, request: DownloadInfo) -> (start: Option<DownloadInfo>)
        ensures
            final(self)@ == old(self)@.push(request),
            start == started_by(old(self)@, QueueEvent::Enqueue(request)),
    {
        let start = if self.is_empty() {
            Some(request.clone())
        } else {
            None
        };
        self.items.push_back(request);
        start
    }

    /// The active transfer has finished: its request leaves the queue as
    /// completed, and the next one, if any, becomes active.
    pub fn on_finished(&mut self) -> (advance: Advance)
        ensures
            final(self)@ == advanced(old(self)@),
            advance.settled == settled_by(old(self)@, QueueEvent::Finished),
            advance.start == started_by(old(self)@, QueueEvent::Finished),
    {
        let settled = match self.advance() {
            Some(request) => Some((request, Outcome::Completed)),
            None => None,
        };
        Advance { settled, start: self.head() }
    }

    /// The active transfer has failed: its request leaves the queue as
    /// failed, with the error, and the next one, if any, becomes active. A
    /// failure never stalls the queue and is never retried.
    pub fn on_failed(&mut self, error: TransferError) -> (advance: Advance)
        ensures
            final(self)@ == advanced(old(self)@),
            advance.settled == settled_by(old(self)@, QueueEvent::Failed(error)),
            advance.start == started_by(old(self)@, QueueEvent::Failed(error)),
    {
        let settled = match self.advance() {
            Some(request) => Some((request, Outcome::Failed(error))),
            None => None,
        };
        Advance { settled, start: self.head() }
    }

    /// Applies an event to the queue.
    pub fn handle(&mut self, event: QueueEvent) -> (advance: Advance)
        ensures
            final(self)@ == after(old(self)@, event),
            advance.settled == settled_by(old(self)@, event),
            advance.start == started_by(old(self)@, event),
    {
        match event {
            QueueEvent::Enqueue(request) => {
                let start = self.enqueue(request);
                Advance { settled: None, start }
            },
            QueueEvent::Finished => self.on_finished(),
            QueueEvent::Failed(error) => self.on_failed(error),
        }
    }
}

/// What a sequence of events has made of an empty queue.
pub struct History {
    /// The requests that are still in the queue.
    pub queue: Seq<DownloadInfo>,
    /// The requests whose transfer was started, in the order of the starts.
    pub started: Seq<DownloadInfo>,
    /// The requests that left the queue, in the order in which they left.
    pub settled: Seq<(DownloadInfo, Outcome)>,
}

/// The one element of an option, or nothing.
pub open spec fn maybe<T>(item: Option<T>) -> Seq<T> {
    match item {
        Some(x) => seq![x],
        None => Seq::empty(),
    }
}

/// The history of an empty queue over a sequence of events.
pub open spec fn history(events: Seq<QueueEvent>) -> History
    decreases events.len(),
{
    if events.len() == 0 {
        History { queue: Seq::empty(), started: Seq::empty(), settled: Seq::empty() }
    } else {
        let before = history(events.drop_last());
        History {
            queue: after(before.queue, events.last()),
            started: before.started + maybe(started_by(before.queue, events.last())),
            settled: before.settled + maybe(settled_by(before.queue, events.last())),
        }
    }
}

/// The requests that a sequence of events makes, in their order.
pub open spec fn requests(events: Seq<QueueEvent>) -> Seq<DownloadInfo>
    decreases events.len(),
{
    if events.len() == 0 {
        Seq::empty()
    } else {
        requests(events.drop_last()) + maybe(
            match events.last() {
                QueueEvent::Enqueue(request) => Some(request),
                _ => None,
            },
        )
    }
}

/// The requests of a sequence of settled entries.
pub open spec fn settled_requests(settled: Seq<(DownloadInfo, Outcome)>) -> Seq<DownloadInfo> {
    settled.map_values(|entry: (DownloadInfo, Outcome)| entry.0)
}

/// One transfer at a time, in the order of the requests: after any sequence
/// of events on an empty queue,
/// - the transfers started are those settled and, while the queue is not
///   empty, one more: the active one;
/// - the requests started, and the requests settled, are the first of the
///   requests made, in the order in which they were made;
/// - the queue holds the remaining requests, in that order.
pub proof fn lemma_one_at_a_time_in_order(events: Seq<QueueEvent>)
    ensures
        ({
            let h = history(events);
            let made = requests(events);
            &&& h.started.len() == h.settled.len() + (if h.queue.len() > 0 {
                1nat
            } else {
                0nat
            })
            &&& h.settled.len() + h.queue.len() == made.len()
            &&& h.started == made.take(h.started.len() as int)
            &&& settled_requests(h.settled) == made.take(h.settled.len() as int)
            &&& h.queue == made.skip(h.settled.len() as int)
        }),
    decreases events.len(),
{
    if events.len() > 0 {
        lemma_one_at_a_time_in_order(events.drop_last());
        let before = history(events.drop_last());
        let h = history(events);
        let made_before = requests(events.drop_last());
        let made = requests(events);
        let event = events.last();
        match event {
            QueueEvent::Enqueue(request) => {
                assert(made == made_before.push(request));
                assert(h.queue =~= made.skip(h.settled.len() as int));
                assert(h.started =~= made.take(h.started.len() as int));
                assert(settled_requests(h.settled) =~= made.take(h.settled.len() as int));
            },
            _ => {
                assert(made == made_before);
                if before.queue.len() > 0 {
                    let entry = settled_by(before.queue, event)->0;
                    assert(entry.0 == before.queue[0]);
                    assert(h.settled == before.settled.push(entry));
                    assert(settled_requests(h.settled) =~= made.take(h.settled.len() as int));
                    assert(h.queue =~= made.skip(h.settled.len() as int));
                    assert(h.started =~= made.take(h.started.len() as int));
                } else {
                    assert(h.started =~= before.started);
                    assert(h.settled =~= before.settled);
                }
            },
        }
    }
}

/// Nothing is lost: once the queue is empty, every request that was made has
/// been settled, as completed or as failed, in the order of the requests.
pub proof fn lemma_drained_queue_settled_all(events: Seq<QueueEvent>)
    requires
        history(events).queue.len() == 0,
    ensures
        settled_requests(history(events).settled) == requests(events),
        history(events).started == requests(events),
{
    lemma_one_at_a_time_in_order(events);
    let made = requests(events);
    assert(made.take(made.len() as int) == made);
}

} // verus!
