//! The consumer-facing coordinator: owns at most one live task handle,
//! enforces at-most-one-outstanding-task, and drives the result-delivery
//! protocol from a non-blocking poll loop.
use vstd::prelude::*;
use crate::handle::TaskHandle;
use crate::outcome::{FailureReason, TerminalResult};
use crate::progress::ProgressEvent;

verus! {

/// Where the coordinator stands in a task's lifetime.
///
/// `Idle` → (`spawn`) → `Spawning` → (worker activates) → `Active` →
/// (worker resolves) → `Finalizing` → (consumer consumes the result in
/// `poll`) → `Idle`.
#[derive(Clone, Copy, Debug, PartialEq, Eq, Structural)]
pub enum LifecycleState {
    Idle,
    Spawning,
    Active,
    Finalizing,
}

/// What one non-blocking poll tick observed: every progress event that was
/// waiting, in send order, and the terminal result if the task resolved.
pub struct PollOutcome {
    pub events: Vec<ProgressEvent>,
    pub result: Option<TerminalResult>,
}

/// Owns the handle of the one outstanding task, if any, and exposes
/// `spawn`, `is_active`, `cancel` and `poll` to the consumer.
///
/// Policy, fixed here: spawning is rejected while a task is outstanding —
/// the consumer must cancel and consume the terminal result first. Every
/// terminal result, success or failure, returns the coordinator to `Idle`,
/// so any failure is safe to retry by spawning again.
pub struct TaskCoordinator {
    task: Option<TaskHandle>,
    capacity: usize,
}

impl TaskCoordinator {
    /// Whether a task handle is outstanding.
    pub closed spec fn has_task(self) -> bool {
        self.task is Some
    }

    /// The outstanding task's handle.
    pub closed spec fn task(self) -> TaskHandle
        recommends
            self.has_task(),
    {
        self.task->Some_0
    }

    /// The bound every spawned task's progress queue gets.
    pub closed spec fn capacity(self) -> int {
        self.capacity as int
    }

    /// The lifecycle state, read off the handle: no handle is `Idle`, an
    /// unactivated handle is `Spawning`, an activated unresolved one is
    /// `Active`, and a resolved one whose result still waits is
    /// `Finalizing`.
    pub open spec fn state(self) -> LifecycleState {
        if !self.has_task() {
            LifecycleState::Idle
        } else if !self.task().is_active() {
            LifecycleState::Spawning
        } else if !self.task().is_resolved() {
            LifecycleState::Active
        } else {
            LifecycleState::Finalizing
        }
    }

    /// Spawning is permitted exactly when no task is outstanding.
    pub open spec fn spawn_allowed(self) -> bool {
        self.state() == LifecycleState::Idle
    }

    /// The coordinator's invariant: a sound capacity and, while a task is
    /// outstanding, a well-formed handle on the same capacity whose result
    /// cell is full exactly when the handle is resolved.
    pub open spec fn wf(self) -> bool {
        &&& self.capacity() >= 1
        &&& self.has_task() ==> {
            &&& self.task().wf()
            &&& self.task().capacity() == self.capacity()
            &&& (self.task().is_resolved() <==> self.task().pending_result() is Some)
        }
    }

    /// A fresh, idle coordinator whose tasks will use the given progress
    /// queue bound.
    pub fn new(capacity: usize) -> (c: Self)
        requires
            capacity >= 1,
        ensures
            c.wf(),
            c.state() == LifecycleState::Idle,
            c.capacity() == capacity,
    {
        TaskCoordinator { task: None, capacity }
    }

    /// Starts a new task for the given source identifier, handing a fresh
    /// handle to the producer. Succeeds exactly when the coordinator is
    /// idle; while a task is outstanding the spawn is rejected and nothing
    /// changes — so after any consumed failure, which leaves the
    /// coordinator idle, a new spawn succeeds.
    pub fn spawn(&mut self, source: String) -> (ok: bool)
        requires
            old(self).wf(),
        ensures
            final(self).wf(),
            final(self).capacity() == old(self).capacity(),
            ok == old(self).spawn_allowed(),
            ok ==> {
                &&& final(self).state() == LifecycleState::Spawning
                &&& final(self).task().queued() == Seq::<ProgressEvent>::empty()
                &&& final(self).task().sent() == Seq::<ProgressEvent>::empty()
                &&& final(self).task().delivered() == Seq::<ProgressEvent>::empty()
                &&& !final(self).task().cancel_requested()
                &&& !final(self).task().is_resolved()
                &&& final(self).task().pending_result() is None
                &&& final(self).task().source() == source@
            },
            !ok ==> *final(self) == *old(self),
    {
        if self.task.is_some() {
            false
        } else {
            self.task = Some(TaskHandle::new(self.capacity, source));
            true
        }
    }

    /// Whether the consumer can observe a live task: true from the moment
    /// the producer activates the handle until the consumer consumes the
    /// terminal result.
    pub fn is_active(&self) -> (b: bool)
        ensures
            b == (self.state() == LifecycleState::Active || self.state()
                == LifecycleState::Finalizing),
    {
        match &self.task {
            Some(h) => h.is_active_now(),
            None => false,
        }
    }

    /// The lifecycle state as a value, for consumers that branch on it.
    pub fn current_state(&self) -> (s: LifecycleState)
        ensures
            s == self.state(),
    {
        match &self.task {
            None => LifecycleState::Idle,
            Some(h) => {
                if !h.is_active_now() {
                    LifecycleState::Spawning
                } else if !h.is_resolved_now() {
                    LifecycleState::Active
                } else {
                    LifecycleState::Finalizing
                }
            },
        }
    }

    /// Asks the outstanding task to cancel, cooperatively: the flag is
    /// raised and the task keeps running until the worker observes it at a
    /// checkpoint. Called while idle it is a no-op: the coordinator is left
    /// exactly as it was, so the call has no observable effect on anything
    /// that follows, in particular not on the next `spawn`.
    pub fn cancel(&mut self)
        requires
            old(self).wf(),
        ensures
            final(self).wf(),
            final(self).capacity() == old(self).capacity(),
            final(self).state() == old(self).state(),
            old(self).state() == LifecycleState::Idle ==> *final(self) == *old(self),
            old(self).state() != LifecycleState::Idle ==> {
                &&& final(self).task().cancel_requested()
                &&& final(self).task().queued() == old(self).task().queued()
                &&& final(self).task().sent() == old(self).task().sent()
                &&& final(self).task().delivered() == old(self).task().delivered()
                &&& final(self).task().is_active() == old(self).task().is_active()
                &&& final(self).task().is_resolved() == old(self).task().is_resolved()
                &&& final(self).task().pending_result() == old(self).task().pending_result()
                &&& final(self).task().source() == old(self).task().source()
            },
    {
        match &mut self.task {
            Some(h) => h.request_cancel(),
            None => (),
        }
    }

    /// One non-blocking poll tick. Returns every progress event that was
    /// waiting, in send order and exactly once each, and the terminal
    /// result if the worker has resolved. Consuming a terminal result —
    /// success or failure — drops the handle and returns the coordinator
    /// to `Idle`, ready for the next spawn; no event and no second result
    /// can be observed from that task afterwards.
    pub fn poll(&mut self) -> (r: PollOutcome)
        requires
            old(self).wf(),
        ensures
            final(self).wf(),
            final(self).capacity() == old(self).capacity(),
            old(self).state() == LifecycleState::Idle ==> {
                &&& *final(self) == *old(self)
                &&& r.events@ == Seq::<ProgressEvent>::empty()
                &&& r.result is None
            },
            old(self).state() != LifecycleState::Idle ==> {
                &&& r.events@ == old(self).task().queued()
                &&& if old(self).task().is_resolved() {
                    &&& r.result == old(self).task().pending_result()
                    &&& r.result is Some
                    &&& final(self).state() == LifecycleState::Idle
                    &&& final(self).spawn_allowed()
                } else {
                    &&& r.result is None
                    &&& final(self).state() == old(self).state()
                    &&& final(self).task().queued() == Seq::<ProgressEvent>::empty()
                    &&& final(self).task().sent() == old(self).task().sent()
                    &&& final(self).task().delivered() == old(self).task().delivered()
                        + r.events@
                    &&& final(self).task().cancel_requested() == old(
                        self,
                    ).task().cancel_requested()
                    &&& final(self).task().pending_result() is None
                    &&& final(self).task().source() == old(self).task().source()
                }
            },
    {
        let mut taken: Option<TaskHandle> = None;
        core::mem::swap(&mut taken, &mut self.task);
        match taken {
            None => PollOutcome { events: Vec::new(), result: None },
            Some(mut h) => {
                let events = h.try_drain();
                let result = h.take_result();
                if result.is_none() {
                    self.task = Some(h);
                }
                PollOutcome { events, result }
            },
        }
    }

    /// Producer side: marks the outstanding task live, before any send.
    pub fn activate_task(&mut self)
        requires
            old(self).wf(),
            old(self).has_task(),
        ensures
            final(self).wf(),
            final(self).capacity() == old(self).capacity(),
            final(self).has_task(),
            final(self).task().is_active(),
            final(self).state() == (if old(self).task().is_resolved() {
                LifecycleState::Finalizing
            } else {
                LifecycleState::Active
            }),
            final(self).task().queued() == old(self).task().queued(),
            final(self).task().sent() == old(self).task().sent(),
            final(self).task().delivered() == old(self).task().delivered(),
            final(self).task().cancel_requested() == old(self).task().cancel_requested(),
            final(self).task().is_resolved() == old(self).task().is_resolved(),
            final(self).task().pending_result() == old(self).task().pending_result(),
            final(self).task().source() == old(self).task().source(),
    {
        match &mut self.task {
            Some(h) => h.activate(),
            None => {
                proof {
                    assert(false);
                }
            },
        }
    }

    /// Producer side: queues one progress event on the outstanding task.
    /// Enabled only while the queue has room; the concurrent realization
    /// blocks the producer here instead, so no event is lost.
    pub fn send_progress(&mut self, event: ProgressEvent)
        requires
            old(self).wf(),
            old(self).has_task(),
            old(self).task().is_active(),
            old(self).task().has_room(),
        ensures
            final(self).wf(),
            final(self).capacity() == old(self).capacity(),
            final(self).has_task(),
            final(self).state() == old(self).state(),
            final(self).task().queued() == old(self).task().queued().push(event),
            final(self).task().sent() == old(self).task().sent().push(event),
            final(self).task().delivered() == old(self).task().delivered(),
            final(self).task().cancel_requested() == old(self).task().cancel_requested(),
            final(self).task().is_resolved() == old(self).task().is_resolved(),
            final(self).task().pending_result() == old(self).task().pending_result(),
            final(self).task().source() == old(self).task().source(),
    {
        match &mut self.task {
            Some(h) => h.send(event),
            None => {
                proof {
                    assert(false);
                }
            },
        }
    }

    /// Producer side: whether the outstanding task's queue has room, so a
    /// caller can drain before it sends.
    pub fn has_room_now(&self) -> (b: bool)
        requires
            self.has_task(),
        ensures
            b == self.task().has_room(),
    {
        match &self.task {
            Some(h) => h.has_room_now(),
            None => {
                proof {
                    assert(false);
                }
                false
            },
        }
    }

    /// Producer side: the checkpoint question — has the consumer asked for
    /// cancellation?
    pub fn should_cancel(&self) -> (b: bool)
        requires
            self.has_task(),
        ensures
            b == self.task().cancel_requested(),
    {
        match &self.task {
            Some(h) => h.should_cancel(),
            None => {
                proof {
                    assert(false);
                }
                false
            },
        }
    }

    /// Producer side: the source identifier the outstanding task was
    /// spawned for.
    pub fn task_source(&self) -> (s: String)
        requires
            self.has_task(),
        ensures
            s@ == self.task().source(),
    {
        match &self.task {
            Some(h) => h.source_clone(),
            None => {
                proof {
                    assert(false);
                }
                String::new()
            },
        }
    }

    /// Producer side: delivers the terminal result, exactly once. A second
    /// delivery leaves everything unchanged and reports `ProtocolViolation`
    /// to the producer, so at most one result per spawn is ever observable
    /// through `poll`.
    pub fn resolve_task(&mut self, result: TerminalResult) -> (r: Result<(), FailureReason>)
        requires
            old(self).wf(),
            old(self).has_task(),
        ensures
            final(self).wf(),
            final(self).capacity() == old(self).capacity(),
            final(self).has_task(),
            !old(self).task().is_resolved() ==> {
                &&& r is Ok
                &&& final(self).task().is_resolved()
                &&& final(self).task().pending_result() == Some(result)
            },
            old(self).task().is_resolved() ==> {
                &&& r == Err::<(), FailureReason>(FailureReason::ProtocolViolation)
                &&& *final(self) == *old(self)
            },
            final(self).task().queued() == old(self).task().queued(),
            final(self).task().sent() == old(self).task().sent(),
            final(self).task().delivered() == old(self).task().delivered(),
            final(self).task().is_active() == old(self).task().is_active(),
            final(self).task().cancel_requested() == old(self).task().cancel_requested(),
            final(self).task().source() == old(self).task().source(),
    {
        match &mut self.task {
            Some(h) => h.resolve(result),
            None => {
                proof {
                    assert(false);
                }
                Err(FailureReason::ProtocolViolation)
            },
        }
    }
}

/// For every sequence of progress events sent before resolution, `poll`
/// yields them in send order and exactly once each: at any reachable
/// coordinator state, the events the polls have delivered so far, followed
/// by those still waiting, are exactly the events the worker has sent, in
/// order — no duplication, and no loss while the producer respects the
/// queue's bound.
pub proof fn lemma_progress_delivered_exactly_once(c: TaskCoordinator)
    requires
        c.wf(),
        c.has_task(),
    ensures
        c.task().delivered() + c.task().queued() == c.task().sent(),
{
}

/// A terminal result returns the coordinator to `Idle`, and from `Idle` a
/// spawn is permitted: every failure is retryable (see `poll`'s and
/// `spawn`'s contracts, which place the coordinator in `Idle` whenever a
/// result was consumed and accept a spawn exactly there).
pub proof fn lemma_idle_permits_spawn(c: TaskCoordinator)
    requires
        c.state() == LifecycleState::Idle,
    ensures
        c.spawn_allowed(),
{
}

} // verus!
