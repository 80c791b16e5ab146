//! The producer's protocol: validate the declared content kind, stream
//! chunks with a cancellation checkpoint before each one, then decode.
//!
//! The worker holds no connection itself: the caller performs the reads and
//! hands every observation in as a plain value, and the worker makes every
//! decision, emits every progress event and delivers the terminal result
//! through the coordinator.
use vstd::prelude::*;
use crate::artifact::{decode_image, image_decode_outcome};
use crate::coordinator::{LifecycleState, TaskCoordinator};
use crate::outcome::{Container, FailureReason, TerminalResult};
use crate::progress::{progress_bytes, ProgressEvent};

verus! {

/// The needle `n` occurs in `h` starting at position `i`.
pub open spec fn is_match_at(h: Seq<u8>, n: Seq<u8>, i: int) -> bool {
    &&& 0 <= i
    &&& i + n.len() <= h.len()
    &&& h.subrange(i, i + n.len() as int) == n
}

/// The needle `n` occurs somewhere in `h`.
pub open spec fn contains_bytes(h: Seq<u8>, n: Seq<u8>) -> bool {
    exists|i: int| is_match_at(h, n, i)
}

/// The bytes of `"image/jpeg"`.
pub open spec fn jpeg_kind() -> Seq<u8> {
    seq![105u8, 109u8, 97u8, 103u8, 101u8, 47u8, 106u8, 112u8, 101u8, 103u8]
}

/// The bytes of `"image/png"`.
pub open spec fn png_kind() -> Seq<u8> {
    seq![105u8, 109u8, 97u8, 103u8, 101u8, 47u8, 112u8, 110u8, 103u8]
}

/// A declared content kind is accepted when it names one of the two image
/// kinds the decoder is used for; a kind such as `image/png; charset=x`
/// still counts.
pub open spec fn accepted_kind(kind: Seq<u8>) -> bool {
    contains_bytes(kind, jpeg_kind()) || contains_bytes(kind, png_kind())
}

fn match_at(h: &Vec<u8>, n: &Vec<u8>, i: usize) -> (r: bool)
    requires
        i + n@.len() <= h@.len(),
    ensures
        r == is_match_at(h@, n@, i as int),
{
    let hn = h.len();
    let nn = n.len();
    let mut j: usize = 0;
    while j < nn
        invariant
            hn == h@.len(),
            nn == n@.len(),
            i + nn <= hn,
            j <= nn,
            forall|k: int| 0 <= k < j ==> h@[i + k] == n@[k],
        decreases nn - j,
    {
        if h[i + j] != n[j] {
            proof {
                assert(h@.subrange(i as int, i + n@.len() as int)[j as int] == h@[i + j]);
            }
            return false;
        }
        j += 1;
    }
    proof {
        assert(h@.subrange(i as int, i + n@.len() as int) =~= n@);
    }
    true
}

fn contains_sub(h: &Vec<u8>, n: &Vec<u8>) -> (r: bool)
    ensures
        r == contains_bytes(h@, n@),
{
    if n.len() > h.len() {
        proof {
            assert(forall|i: int| !is_match_at(h@, n@, i));
        }
        return false;
    }
    if n.len() == 0 {
        proof {
            assert(h@.subrange(0, 0) =~= n@);
            assert(is_match_at(h@, n@, 0));
        }
        return true;
    }
    let end = h.len() - n.len();
    let mut i: usize = 0;
    loop
        invariant
            1 <= n@.len() <= h@.len(),
            end == h@.len() - n@.len(),
            i <= end,
            forall|k: int| 0 <= k < i ==> !is_match_at(h@, n@, k),
        decreases end - i,
    {
        if match_at(h, n, i) {
            return true;
        }
        if i == end {
            proof {
                assert forall|k: int| !is_match_at(h@, n@, k) by {
                    if 0 <= k < i {
                    }
                }
            }
            return false;
        }
        i += 1;
    }
}

/// The accepted kind `image/jpeg`, as header bytes.
pub fn jpeg_kind_bytes() -> (v: Vec<u8>)
    ensures
        v@ == jpeg_kind(),
{
    let mut v: Vec<u8> = Vec::new();
    v.push(105);  // i
    v.push(109);  // m
    v.push(97);  // a
    v.push(103);  // g
    v.push(101);  // e
    v.push(47);  // /
    v.push(106);  // j
    v.push(112);  // p
    v.push(101);  // e
    v.push(103);  // g
    proof {
        assert(v@ =~= jpeg_kind());
    }
    v
}

/// The accepted kind `image/png`, as header bytes.
pub fn png_kind_bytes() -> (v: Vec<u8>)
    ensures
        v@ == png_kind(),
{
    let mut v: Vec<u8> = Vec::new();
    v.push(105);  // i
    v.push(109);  // m
    v.push(97);  // a
    v.push(103);  // g
    v.push(101);  // e
    v.push(47);  // /
    v.push(112);  // p
    v.push(110);  // n
    v.push(103);  // g
    proof {
        assert(v@ =~= png_kind());
    }
    v
}

/// Whether a declared content kind, as header bytes, is in the accepted
/// set.
pub fn is_accepted_kind(kind: &Vec<u8>) -> (r: bool)
    ensures
        r == accepted_kind(kind@),
{
    let jpeg = jpeg_kind_bytes();
    if contains_sub(kind, &jpeg) {
        return true;
    }
    let png = png_kind_bytes();
    contains_sub(kind, &png)
}

/// Where the worker stands: still consuming the body, or finished (the
/// terminal result is delivered and no further step is taken).
#[derive(Clone, Copy, Debug, PartialEq, Eq, Structural)]
pub enum WorkerPhase {
    Streaming,
    Done,
}

/// The producer's state: the bytes accumulated so far, owned exclusively
/// by the worker until resolution, and the phase.
pub struct FetchWorker {
    buffer: Vec<u8>,
    phase: WorkerPhase,
}

impl FetchWorker {
    /// The bytes accumulated from accepted chunks so far.
    pub closed spec fn buffer(self) -> Seq<u8> {
        self.buffer@
    }

    /// The worker's phase.
    pub closed spec fn phase(self) -> WorkerPhase {
        self.phase
    }

    /// Whether the worker still consumes the body.
    pub open spec fn is_streaming(self) -> bool {
        self.phase() == WorkerPhase::Streaming
    }

    /// The worker serves the coordinator's outstanding task: the task is
    /// live, and while the worker streams, the task is unresolved and the
    /// byte counts it has reported sum to exactly the worker's buffer
    /// length — so the progress the consumer sees is the truth about the
    /// buffer.
    pub open spec fn coupled(self, c: TaskCoordinator) -> bool {
        &&& c.wf()
        &&& c.has_task()
        &&& c.task().is_active()
        &&& self.is_streaming() ==> {
            &&& !c.task().is_resolved()
            &&& progress_bytes(c.task().sent()) == self.buffer().len()
        }
    }

    /// Whether the worker still consumes the body, as a value: the caller
    /// reads the body only while this holds.
    pub fn is_streaming_now(&self) -> (b: bool)
        ensures
            b == self.is_streaming(),
    {
        match self.phase {
            WorkerPhase::Streaming => true,
            WorkerPhase::Done => false,
        }
    }

    /// Opens the task: activates the handle — so the task is observably
    /// live before any progress event — and validates the connection's
    /// outcome. A transport failure, a missing content kind, or a kind
    /// outside the accepted set each resolve the task at once, without the
    /// body being read; an accepted kind leaves the worker streaming with
    /// an empty buffer.
    pub fn start(c: &mut TaskCoordinator, head: Result<Option<Vec<u8>>, String>) -> (w:
        FetchWorker)
        requires
            old(c).wf(),
            old(c).state() == LifecycleState::Spawning,
            !old(c).task().is_resolved(),
        ensures
            w.coupled(*final(c)),
            final(c).capacity() == old(c).capacity(),
            final(c).task().queued() == old(c).task().queued(),
            final(c).task().sent() == old(c).task().sent(),
            final(c).task().delivered() == old(c).task().delivered(),
            final(c).task().cancel_requested() == old(c).task().cancel_requested(),
            final(c).task().source() == old(c).task().source(),
            w.buffer() == Seq::<u8>::empty(),
            head matches Err(detail) ==> {
                &&& w.phase() == WorkerPhase::Done
                &&& final(c).task().pending_result() == Some(
                    TerminalResult::Failure(FailureReason::TransportError(detail)),
                )
            },
            head matches Ok(kind_opt) ==> match kind_opt {
                None => {
                    &&& w.phase() == WorkerPhase::Done
                    &&& final(c).task().pending_result() == Some(
                        TerminalResult::Failure(FailureReason::MissingMetadata),
                    )
                },
                Some(kind) => {
                    &&& accepted_kind(kind@) ==> {
                        &&& w.is_streaming()
                        &&& !final(c).task().is_resolved()
                    }
                    &&& !accepted_kind(kind@) ==> {
                        &&& w.phase() == WorkerPhase::Done
                        &&& final(c).task().pending_result() == Some(
                            TerminalResult::Failure(FailureReason::UnexpectedContentKind(kind)),
                        )
                    }
                },
            },
    {
        c.activate_task();
        match head {
            Err(detail) => {
                let _ = c.resolve_task(
                    TerminalResult::Failure(FailureReason::TransportError(detail)),
                );
                FetchWorker { buffer: Vec::new(), phase: WorkerPhase::Done }
            },
            Ok(None) => {
                let _ = c.resolve_task(TerminalResult::Failure(FailureReason::MissingMetadata));
                FetchWorker { buffer: Vec::new(), phase: WorkerPhase::Done }
            },
            Ok(Some(kind)) => {
                if is_accepted_kind(&kind) {
                    FetchWorker { buffer: Vec::new(), phase: WorkerPhase::Streaming }
                } else {
                    let _ = c.resolve_task(
                        TerminalResult::Failure(FailureReason::UnexpectedContentKind(kind)),
                    );
                    FetchWorker { buffer: Vec::new(), phase: WorkerPhase::Done }
                }
            },
        }
    }

    /// One body step: the checkpoint, then the chunk.
    ///
    /// The cancellation flag is observed before the chunk counts, so a
    /// request raised before the first chunk — or after any chunk — is
    /// honored at the very next step: the task resolves with
    /// `CancellationRequested` (never `Success`), the chunk in hand is
    /// discarded, and no further progress is reported. Otherwise a
    /// transport error resolves the task with `TransportError`, and a good
    /// chunk is counted: one `BytesReceived` event with exactly the
    /// chunk's length, appended to the buffer.
    pub fn on_chunk(&mut self, c: &mut TaskCoordinator, chunk: Result<Vec<u8>, String>) -> (done:
        bool)
        requires
            old(self).is_streaming(),
            old(self).coupled(*old(c)),
            old(c).task().has_room(),
        ensures
            final(self).coupled(*final(c)),
            done == !final(self).is_streaming(),
            final(c).capacity() == old(c).capacity(),
            final(c).task().delivered() == old(c).task().delivered(),
            final(c).task().cancel_requested() == old(c).task().cancel_requested(),
            final(c).task().source() == old(c).task().source(),
            old(c).task().cancel_requested() ==> {
                &&& final(self).phase() == WorkerPhase::Done
                &&& final(c).task().pending_result() == Some(
                    TerminalResult::Failure(FailureReason::CancellationRequested),
                )
                &&& final(c).task().sent() == old(c).task().sent()
                &&& final(c).task().queued() == old(c).task().queued()
                &&& final(self).buffer() == old(self).buffer()
            },
            !old(c).task().cancel_requested() ==> match chunk {
                Err(detail) => {
                    &&& final(self).phase() == WorkerPhase::Done
                    &&& final(c).task().pending_result() == Some(
                        TerminalResult::Failure(FailureReason::TransportError(detail)),
                    )
                    &&& final(c).task().sent() == old(c).task().sent()
                    &&& final(c).task().queued() == old(c).task().queued()
                    &&& final(self).buffer() == old(self).buffer()
                },
                Ok(bytes) => {
                    &&& final(self).is_streaming()
                    &&& !final(c).task().is_resolved()
                    &&& final(self).buffer() == old(self).buffer() + bytes@
                    &&& final(c).task().sent() == old(c).task().sent().push(
                        ProgressEvent::BytesReceived(bytes.len()),
                    )
                    &&& final(c).task().queued() == old(c).task().queued().push(
                        ProgressEvent::BytesReceived(bytes.len()),
                    )
                },
            },
    {
        if c.should_cancel() {
            let _ = c.resolve_task(TerminalResult::Failure(FailureReason::CancellationRequested));
            self.phase = WorkerPhase::Done;
            true
        } else {
            match chunk {
                Err(detail) => {
                    let _ = c.resolve_task(
                        TerminalResult::Failure(FailureReason::TransportError(detail)),
                    );
                    self.phase = WorkerPhase::Done;
                    true
                },
                Ok(mut bytes) => {
                    let n = bytes.len();
                    c.send_progress(ProgressEvent::BytesReceived(n));
                    self.buffer.append(&mut bytes);
                    proof {
                        let s = old(c).task().sent();
                        let e = ProgressEvent::BytesReceived(n);
                        assert(s.push(e).drop_last() =~= s);
                    }
                    false
                },
            }
        }
    }

    /// The end of the body: one more checkpoint, then the decode.
    ///
    /// A pending cancellation still wins. Otherwise the worker announces
    /// `DecodeStarted` and decodes its buffer: a decodable buffer resolves
    /// the task with `Success` carrying the artifact — whose recorded
    /// source length equals the buffer length, which in turn equals the
    /// sum of every reported `BytesReceived` count — and a failed decode
    /// resolves it with `DecodeError`. Decoding is never entered with a
    /// cancellation pending, and is not interruptible once entered.
    pub fn on_stream_end(&mut self, c: &mut TaskCoordinator)
        requires
            old(self).is_streaming(),
            old(self).coupled(*old(c)),
            old(c).task().has_room(),
        ensures
            final(self).phase() == WorkerPhase::Done,
            final(self).coupled(*final(c)),
            final(c).capacity() == old(c).capacity(),
            final(c).task().delivered() == old(c).task().delivered(),
            final(c).task().cancel_requested() == old(c).task().cancel_requested(),
            final(c).task().source() == old(c).task().source(),
            old(c).task().cancel_requested() ==> {
                &&& final(c).task().pending_result() == Some(
                    TerminalResult::Failure(FailureReason::CancellationRequested),
                )
                &&& final(c).task().sent() == old(c).task().sent()
                &&& final(c).task().queued() == old(c).task().queued()
            },
            !old(c).task().cancel_requested() ==> {
                &&& final(c).task().sent() == old(c).task().sent().push(
                    ProgressEvent::DecodeStarted,
                )
                &&& match image_decode_outcome(old(self).buffer()) {
                    Ok(dims) => final(c).task().pending_result() matches Some(
                        TerminalResult::Success(Container::Image(a)),
                    ) && {
                        &&& a.width == dims.0
                        &&& a.height == dims.1
                        &&& a.source_len == old(self).buffer().len()
                        &&& a.debug_name@ == old(c).task().source()
                        &&& progress_bytes(final(c).task().sent()) == a.source_len as int
                    },
                    Err(msg) => final(c).task().pending_result() matches Some(
                        TerminalResult::Failure(FailureReason::DecodeError(m)),
                    ) && m@ == msg,
                }
            },
    {
        if c.should_cancel() {
            let _ = c.resolve_task(TerminalResult::Failure(FailureReason::CancellationRequested));
            self.phase = WorkerPhase::Done;
        } else {
            c.send_progress(ProgressEvent::DecodeStarted);
            proof {
                let s = old(c).task().sent();
                assert(s.push(ProgressEvent::DecodeStarted).drop_last() =~= s);
            }
            let name = c.task_source();
            match decode_image(name, &self.buffer) {
                Ok(artifact) => {
                    let _ = c.resolve_task(TerminalResult::Success(Container::Image(artifact)));
                },
                Err(msg) => {
                    let _ = c.resolve_task(
                        TerminalResult::Failure(FailureReason::DecodeError(msg)),
                    );
                },
            }
            self.phase = WorkerPhase::Done;
        }
    }
}

} // verus!
