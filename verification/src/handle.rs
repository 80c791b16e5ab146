//! The per-task handle: a progress channel, a cancellation flag and a
//! one-shot terminal-result cell, scoped to a single task attempt.
use vstd::prelude::*;
use crate::outcome::{FailureReason, TerminalResult};
use crate::progress::{ProgressChannel, ProgressEvent};

verus! {

/// A shared, observable boolean the consumer raises to ask for cooperative
/// cancellation. Set at most once per task instance and never reset; the
/// producer reads it at its checkpoints.
pub struct CancelFlag {
    requested: bool,
}

impl CancelFlag {
    /// Whether cancellation has been requested.
    pub closed spec fn is_requested(self) -> bool {
        self.requested
    }

    /// A fresh flag with no request pending.
    pub fn new() -> (f: Self)
        ensures
            !f.is_requested(),
    {
        CancelFlag { requested: false }
    }

    /// Raises the flag. Idempotent: raising it again changes nothing.
    pub fn request(&mut self)
        ensures
            final(self).is_requested(),
    {
        self.requested = true;
    }

    /// Reads the flag without changing it.
    pub fn check(&self) -> (b: bool)
        ensures
            b == self.is_requested(),
    {
        self.requested
    }
}

/// Couples one progress channel, one cancellation flag and one terminal-
/// result cell, created at spawn time and dropped once the consumer has
/// drained it and consumed the result.
pub struct TaskHandle {
    channel: ProgressChannel,
    cancel: CancelFlag,
    result: Option<TerminalResult>,
    resolved: bool,
    source: String,
}

impl TaskHandle {
    /// Events waiting to be drained, oldest first.
    pub closed spec fn queued(self) -> Seq<ProgressEvent> {
        self.channel.queued()
    }

    /// Every event ever sent through this handle, in send order.
    pub closed spec fn sent(self) -> Seq<ProgressEvent> {
        self.channel.sent()
    }

    /// Every event ever drained from this handle, in drain order.
    pub closed spec fn delivered(self) -> Seq<ProgressEvent> {
        self.channel.delivered()
    }

    /// The progress queue's bound.
    pub closed spec fn capacity(self) -> int {
        self.channel.capacity()
    }

    /// Whether the producer has marked the task live.
    pub closed spec fn is_active(self) -> bool {
        self.channel.is_active()
    }

    /// Whether the consumer has asked for cancellation.
    pub closed spec fn cancel_requested(self) -> bool {
        self.cancel.is_requested()
    }

    /// Whether a terminal result has been delivered.
    pub closed spec fn is_resolved(self) -> bool {
        self.resolved
    }

    /// The delivered terminal result, while it waits to be consumed.
    pub closed spec fn pending_result(self) -> Option<TerminalResult> {
        self.result
    }

    /// The source identifier handed to `spawn` when the task began.
    pub closed spec fn source(self) -> Seq<char> {
        self.source@
    }

    /// Whether the producer may send without waiting.
    pub open spec fn has_room(self) -> bool {
        self.queued().len() < self.capacity()
    }

    /// The handle's invariant: the channel is well formed, a pending result
    /// implies the handle is resolved, and no event is ever visible before
    /// the task is observably active.
    pub open spec fn wf(self) -> bool {
        &&& self.capacity() >= 1
        &&& self.queued().len() <= self.capacity()
        &&& self.sent() == self.delivered() + self.queued()
        &&& (self.pending_result() is Some ==> self.is_resolved())
        &&& (self.sent().len() > 0 ==> self.is_active())
    }

    /// A fresh handle for one task attempt: inactive, no events, no
    /// cancellation request, unresolved.
    pub fn new(capacity: usize, source: String) -> (h: Self)
        requires
            capacity >= 1,
        ensures
            h.wf(),
            h.capacity() == capacity,
            !h.is_active(),
            !h.cancel_requested(),
            !h.is_resolved(),
            h.pending_result() is None,
            h.queued() == Seq::<ProgressEvent>::empty(),
            h.sent() == Seq::<ProgressEvent>::empty(),
            h.delivered() == Seq::<ProgressEvent>::empty(),
            h.source() == source@,
    {
        TaskHandle {
            channel: ProgressChannel::new(capacity),
            cancel: CancelFlag::new(),
            result: None,
            resolved: false,
            source,
        }
    }

    /// Marks the task live. The producer calls this before its first send,
    /// so the consumer observes activity strictly before any progress event
    /// is visible.
    pub fn activate(&mut self)
        requires
            old(self).wf(),
        ensures
            final(self).wf(),
            final(self).is_active(),
            final(self).queued() == old(self).queued(),
            final(self).sent() == old(self).sent(),
            final(self).delivered() == old(self).delivered(),
            final(self).capacity() == old(self).capacity(),
            final(self).cancel_requested() == old(self).cancel_requested(),
            final(self).is_resolved() == old(self).is_resolved(),
            final(self).pending_result() == old(self).pending_result(),
            final(self).source() == old(self).source(),
    {
        self.channel.activate();
    }

    /// Queues one progress event. Enabled only on an activated handle with
    /// room in the queue; the concurrent realization blocks the producer at
    /// this point instead, so no event is lost.
    pub fn send(&mut self, event: ProgressEvent)
        requires
            old(self).wf(),
            old(self).is_active(),
            old(self).has_room(),
        ensures
            final(self).wf(),
            final(self).queued() == old(self).queued().push(event),
            final(self).sent() == old(self).sent().push(event),
            final(self).delivered() == old(self).delivered(),
            final(self).capacity() == old(self).capacity(),
            final(self).is_active(),
            final(self).cancel_requested() == old(self).cancel_requested(),
            final(self).is_resolved() == old(self).is_resolved(),
            final(self).pending_result() == old(self).pending_result(),
            final(self).source() == old(self).source(),
    {
        self.channel.send(event);
    }

    /// Raises the cancellation flag. Idempotent; once raised it stays
    /// raised until the handle is dropped. Nothing else changes.
    pub fn request_cancel(&mut self)
        requires
            old(self).wf(),
        ensures
            final(self).wf(),
            final(self).cancel_requested(),
            final(self).queued() == old(self).queued(),
            final(self).sent() == old(self).sent(),
            final(self).delivered() == old(self).delivered(),
            final(self).capacity() == old(self).capacity(),
            final(self).is_active() == old(self).is_active(),
            final(self).is_resolved() == old(self).is_resolved(),
            final(self).pending_result() == old(self).pending_result(),
            final(self).source() == old(self).source(),
    {
        self.cancel.request();
    }

    /// Whether the producer may send without waiting, as a value.
    pub fn has_room_now(&self) -> (b: bool)
        ensures
            b == self.has_room(),
    {
        self.channel.has_room_now()
    }

    /// Whether the producer has marked the task live, as a value.
    pub fn is_active_now(&self) -> (b: bool)
        ensures
            b == self.is_active(),
    {
        self.channel.is_active_now()
    }

    /// Whether a terminal result has been delivered, as a value.
    pub fn is_resolved_now(&self) -> (b: bool)
        ensures
            b == self.is_resolved(),
    {
        self.resolved
    }

    /// A copy of the source identifier handed to `spawn` when the task began.
    pub fn source_clone(&self) -> (s: String)
        ensures
            s@ == self.source(),
    {
        self.source.clone()
    }

    /// Reads the cancellation flag: the producer's checkpoint question.
    pub fn should_cancel(&self) -> (b: bool)
        ensures
            b == self.cancel_requested(),
    {
        self.cancel.check()
    }

    /// Delivers the terminal result, exactly once. A second delivery is a
    /// programming error: the handle is left exactly as it was, the second
    /// result is dropped, and `ProtocolViolation` is reported to the
    /// caller — so at most one result is ever observable per task.
    pub fn resolve(&mut self, result: TerminalResult) -> (r: Result<(), FailureReason>)
        requires
            old(self).wf(),
        ensures
            final(self).wf(),
            !old(self).is_resolved() ==> {
                &&& r is Ok
                &&& final(self).is_resolved()
                &&& final(self).pending_result() == Some(result)
            },
            old(self).is_resolved() ==> {
                &&& r == Err::<(), FailureReason>(FailureReason::ProtocolViolation)
                &&& *final(self) == *old(self)
            },
            final(self).queued() == old(self).queued(),
            final(self).sent() == old(self).sent(),
            final(self).delivered() == old(self).delivered(),
            final(self).capacity() == old(self).capacity(),
            final(self).is_active() == old(self).is_active(),
            final(self).cancel_requested() == old(self).cancel_requested(),
            final(self).source() == old(self).source(),
    {
        if self.resolved {
            Err(FailureReason::ProtocolViolation)
        } else {
            self.resolved = true;
            self.result = Some(result);
            Ok(())
        }
    }

    /// Removes and returns the pending terminal result, if any. The
    /// consumer calls this once per task, then drops the handle.
    pub fn take_result(&mut self) -> (r: Option<TerminalResult>)
        requires
            old(self).wf(),
        ensures
            final(self).wf(),
            r == old(self).pending_result(),
            final(self).pending_result() is None,
            final(self).queued() == old(self).queued(),
            final(self).sent() == old(self).sent(),
            final(self).delivered() == old(self).delivered(),
            final(self).capacity() == old(self).capacity(),
            final(self).is_active() == old(self).is_active(),
            final(self).cancel_requested() == old(self).cancel_requested(),
            final(self).is_resolved() == old(self).is_resolved(),
            final(self).source() == old(self).source(),
    {
        self.result.take()
    }

    /// Drains every waiting event, oldest first. Never blocks.
    pub fn try_drain(&mut self) -> (events: Vec<ProgressEvent>)
        requires
            old(self).wf(),
        ensures
            final(self).wf(),
            events@ == old(self).queued(),
            final(self).queued() == Seq::<ProgressEvent>::empty(),
            final(self).delivered() == old(self).delivered() + events@,
            final(self).sent() == old(self).sent(),
            final(self).capacity() == old(self).capacity(),
            final(self).is_active() == old(self).is_active(),
            final(self).cancel_requested() == old(self).cancel_requested(),
            final(self).is_resolved() == old(self).is_resolved(),
            final(self).pending_result() == old(self).pending_result(),
            final(self).source() == old(self).source(),
    {
        self.channel.try_drain()
    }
}

} // verus!
