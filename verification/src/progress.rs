//! Progress events and the bounded producer-to-consumer queue they travel on.
use vstd::prelude::*;

verus! {

/// One progress report emitted by the worker while a task runs.
///
/// Every event carries either a byte count or a status marker; events are
/// delivered to the consumer in emission order, exactly once each.
#[derive(Clone, Copy, Debug, PartialEq, Eq, Structural)]
pub enum ProgressEvent {
    /// The worker appended this many bytes to its download buffer.
    BytesReceived(usize),
    /// The worker finished streaming and is about to decode the buffer.
    DecodeStarted,
}

/// Side of the pipeline a progress count belongs to, for consumers that run
/// both a raw data task and an image task over the same channel.
#[derive(Clone, Copy, Debug, PartialEq, Eq, Structural)]
pub enum Channel {
    Data(usize),
    Image(usize),
}

/// The number of payload bytes reported by a sequence of progress events:
/// the sum of every `BytesReceived` count, in order; status markers add
/// nothing.
pub open spec fn progress_bytes(events: Seq<ProgressEvent>) -> int
    decreases events.len(),
{
    if events.len() == 0 {
        0
    } else {
        progress_bytes(events.drop_last()) + match events.last() {
            ProgressEvent::BytesReceived(n) => n as int,
            ProgressEvent::DecodeStarted => 0,
        }
    }
}

/// Extending a sequence of events by one adds exactly that event's byte
/// count to the reported total.
pub proof fn lemma_progress_bytes_take_step(s: Seq<ProgressEvent>, i: int)
    requires
        0 <= i < s.len(),
    ensures
        progress_bytes(s.take(i + 1)) == progress_bytes(s.take(i)) + match s[i] {
            ProgressEvent::BytesReceived(n) => n as int,
            ProgressEvent::DecodeStarted => 0,
        },
{
    assert(s.take(i + 1).drop_last() =~= s.take(i));
    assert(s.take(i + 1).last() == s[i]);
}

/// A prefix of a sequence of events reports at most the whole sequence's
/// byte total.
pub proof fn lemma_progress_bytes_prefix_bound(s: Seq<ProgressEvent>, i: int)
    requires
        0 <= i <= s.len(),
    ensures
        progress_bytes(s.take(i)) <= progress_bytes(s),
    decreases s.len() - i,
{
    if i < s.len() {
        lemma_progress_bytes_take_step(s, i);
        lemma_progress_bytes_prefix_bound(s, i + 1);
    } else {
        assert(s.take(i) =~= s);
    }
}

/// A bounded queue of progress events from one producer to one consumer,
/// paired with the task's liveness flag.
///
/// The producer is modeled as blocking when the queue is full: `send` is
/// enabled only while `has_room()` holds, so no event is ever dropped.
/// The ghost histories `sent()` and `delivered()` record every event that
/// ever entered or left the queue, so delivery in send order and exactly
/// once is part of the channel's invariant rather than a property of one
/// call.
pub struct ProgressChannel {
    events: Vec<ProgressEvent>,
    capacity: usize,
    active: bool,
    sent: Ghost<Seq<ProgressEvent>>,
    delivered: Ghost<Seq<ProgressEvent>>,
}

impl ProgressChannel {
    /// The events currently waiting to be drained, oldest first.
    pub closed spec fn queued(self) -> Seq<ProgressEvent> {
        self.events@
    }

    /// The most events that can wait in the queue at once.
    pub closed spec fn capacity(self) -> int {
        self.capacity as int
    }

    /// Whether the producer has marked the task as live.
    pub closed spec fn is_active(self) -> bool {
        self.active
    }

    /// Every event the producer has ever sent, in send order.
    pub closed spec fn sent(self) -> Seq<ProgressEvent> {
        self.sent@
    }

    /// Every event the consumer has ever drained, in drain order.
    pub closed spec fn delivered(self) -> Seq<ProgressEvent> {
        self.delivered@
    }

    /// The channel's invariant: the queue respects its bound, and what was
    /// sent is exactly what was delivered followed by what still waits.
    pub open spec fn wf(self) -> bool {
        &&& self.capacity() >= 1
        &&& self.queued().len() <= self.capacity()
        &&& self.sent() == self.delivered() + self.queued()
    }

    /// Whether the producer may send without waiting.
    pub open spec fn has_room(self) -> bool {
        self.queued().len() < self.capacity()
    }

    /// A fresh, inactive channel with the given bound.
    pub fn new(capacity: usize) -> (c: Self)
        requires
            capacity >= 1,
        ensures
            c.wf(),
            c.capacity() == capacity,
            !c.is_active(),
            c.queued() == Seq::<ProgressEvent>::empty(),
            c.sent() == Seq::<ProgressEvent>::empty(),
            c.delivered() == Seq::<ProgressEvent>::empty(),
    {
        let c = ProgressChannel {
            events: Vec::new(),
            capacity,
            active: false,
            sent: Ghost(Seq::empty()),
            delivered: Ghost(Seq::empty()),
        };
        proof {
            assert(c.sent() =~= c.delivered() + c.queued());
        }
        c
    }

    /// Marks the task live; nothing else changes.
    pub fn activate(&mut self)
        requires
            old(self).wf(),
        ensures
            final(self).wf(),
            final(self).is_active(),
            final(self).queued() == old(self).queued(),
            final(self).sent() == old(self).sent(),
            final(self).delivered() == old(self).delivered(),
            final(self).capacity() == old(self).capacity(),
    {
        self.active = true;
    }

    /// Whether the producer has marked the task live, as a value.
    pub fn is_active_now(&self) -> (b: bool)
        ensures
            b == self.is_active(),
    {
        self.active
    }

    /// Whether the producer may send without waiting, as a value.
    pub fn has_room_now(&self) -> (b: bool)
        ensures
            b == self.has_room(),
    {
        self.events.len() < self.capacity
    }

    /// Queues one event. Enabled only while there is room: the concurrent
    /// realization of this channel blocks the producer at this point
    /// instead, so that no progress event is lost.
    pub fn send(&mut self, event: ProgressEvent)
        requires
            old(self).wf(),
            old(self).has_room(),
        ensures
            final(self).wf(),
            final(self).queued() == old(self).queued().push(event),
            final(self).sent() == old(self).sent().push(event),
            final(self).delivered() == old(self).delivered(),
            final(self).is_active() == old(self).is_active(),
            final(self).capacity() == old(self).capacity(),
    {
        self.events.push(event);
        proof {
            self.sent@ = self.sent@.push(event);
            assert(self.sent() =~= self.delivered() + self.queued());
        }
    }

    /// Hands every waiting event to the consumer, oldest first, and empties
    /// the queue. Never blocks.
    pub fn try_drain(&mut self) -> (events: Vec<ProgressEvent>)
        requires
            old(self).wf(),
        ensures
            final(self).wf(),
            events@ == old(self).queued(),
            final(self).queued() == Seq::<ProgressEvent>::empty(),
            final(self).delivered() == old(self).delivered() + events@,
            final(self).sent() == old(self).sent(),
            final(self).is_active() == old(self).is_active(),
            final(self).capacity() == old(self).capacity(),
    {
        let mut out: Vec<ProgressEvent> = Vec::new();
        core::mem::swap(&mut out, &mut self.events);
        proof {
            self.delivered@ = self.delivered@ + out@;
            assert(self.sent() =~= self.delivered() + self.queued());
        }
        out
    }
}

/// Progress is delivered exactly once and in send order: at any reachable
/// channel state, the events drained so far, followed by those still queued,
/// are exactly the events sent so far. No event is duplicated, reordered, or
/// lost.
pub proof fn lemma_delivery_exact(c: ProgressChannel)
    requires
        c.wf(),
    ensures
        c.delivered() + c.queued() == c.sent(),
{
}

} // verus!
