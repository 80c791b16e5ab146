use taskflow::coordinator::{LifecycleState, TaskCoordinator};
use taskflow::handle::TaskHandle;
use taskflow::outcome::{Container, FailureReason, TerminalResult};
use taskflow::progress::{ProgressChannel, ProgressEvent};
use taskflow::worker::{is_accepted_kind, FetchWorker};

/// A complete, valid 1x1 24-bit BMP file: 14-byte file header, 40-byte
/// info header, one padded pixel row.
fn tiny_bmp() -> Vec<u8> {
    let mut v: Vec<u8> = Vec::new();
    // file header: "BM", file size 58, reserved, pixel data offset 54
    v.extend_from_slice(&[0x42, 0x4d]);
    v.extend_from_slice(&58u32.to_le_bytes());
    v.extend_from_slice(&[0, 0, 0, 0]);
    v.extend_from_slice(&54u32.to_le_bytes());
    // info header: size 40, width 1, height 1, planes 1, 24 bpp,
    // no compression, image size 4, resolutions and palette counts 0
    v.extend_from_slice(&40u32.to_le_bytes());
    v.extend_from_slice(&1i32.to_le_bytes());
    v.extend_from_slice(&1i32.to_le_bytes());
    v.extend_from_slice(&1u16.to_le_bytes());
    v.extend_from_slice(&24u16.to_le_bytes());
    v.extend_from_slice(&0u32.to_le_bytes());
    v.extend_from_slice(&4u32.to_le_bytes());
    v.extend_from_slice(&0u32.to_le_bytes());
    v.extend_from_slice(&0u32.to_le_bytes());
    v.extend_from_slice(&0u32.to_le_bytes());
    v.extend_from_slice(&0u32.to_le_bytes());
    // one blue-ish pixel (BGR) plus one padding byte
    v.extend_from_slice(&[200, 60, 30, 0]);
    assert_eq!(v.len(), 58);
    v
}

fn spawned(capacity: usize) -> TaskCoordinator {
    let mut c = TaskCoordinator::new(capacity);
    assert!(c.spawn(String::from("https://example.test/img")));
    c
}

#[test]
fn spawn_only_from_idle() {
    let mut c = TaskCoordinator::new(4);
    assert_eq!(c.current_state(), LifecycleState::Idle);
    assert!(c.spawn(String::from("a")));
    assert_eq!(c.current_state(), LifecycleState::Spawning);
    // a task is outstanding: a second spawn is rejected
    assert!(!c.spawn(String::from("b")));
    assert_eq!(c.current_state(), LifecycleState::Spawning);
}

#[test]
fn poll_while_idle_observes_nothing() {
    let mut c = TaskCoordinator::new(4);
    let out = c.poll();
    assert!(out.events.is_empty());
    assert!(out.result.is_none());
    assert_eq!(c.current_state(), LifecycleState::Idle);
}

#[test]
fn cancel_while_idle_is_a_no_op() {
    let mut c = TaskCoordinator::new(4);
    c.cancel();
    assert_eq!(c.current_state(), LifecycleState::Idle);
    // the next spawn proceeds exactly as on a fresh coordinator
    assert!(c.spawn(String::from("a")));
    assert_eq!(c.current_state(), LifecycleState::Spawning);
    let mut w = FetchWorker::start(&mut c, Ok(Some(b"image/png".to_vec())));
    // the stale cancel did not leak into the new task
    assert!(!c.should_cancel());
    let done = w.on_chunk(&mut c, Ok(vec![1u8, 2, 3]));
    assert!(!done);
    let out = c.poll();
    assert_eq!(out.events, vec![ProgressEvent::BytesReceived(3)]);
    assert!(out.result.is_none());
}

#[test]
fn progress_arrives_in_send_order_exactly_once() {
    let mut c = spawned(8);
    let mut w = FetchWorker::start(&mut c, Ok(Some(b"image/jpeg".to_vec())));
    assert!(c.is_active());
    assert!(!w.on_chunk(&mut c, Ok(vec![0u8; 3])));
    assert!(!w.on_chunk(&mut c, Ok(vec![0u8; 4])));
    let first = c.poll();
    assert_eq!(
        first.events,
        vec![ProgressEvent::BytesReceived(3), ProgressEvent::BytesReceived(4)]
    );
    assert!(first.result.is_none());
    // an empty tick duplicates nothing
    let idle_tick = c.poll();
    assert!(idle_tick.events.is_empty());
    assert!(idle_tick.result.is_none());
    assert!(!w.on_chunk(&mut c, Ok(vec![0u8; 5])));
    let second = c.poll();
    assert_eq!(second.events, vec![ProgressEvent::BytesReceived(5)]);
    assert!(second.result.is_none());
}

#[test]
fn at_most_one_terminal_result_per_spawn() {
    let mut c = spawned(4);
    let _w = FetchWorker::start(&mut c, Ok(Some(b"image/png".to_vec())));
    let first = c.resolve_task(TerminalResult::Failure(FailureReason::TransportError(
        String::from("reset"),
    )));
    assert!(first.is_ok());
    // a second delivery is dropped and reported as a protocol violation
    let second = c.resolve_task(TerminalResult::Success(Container::Data(vec![1u8])));
    assert!(matches!(second, Err(FailureReason::ProtocolViolation)));
    let out = c.poll();
    match out.result {
        Some(TerminalResult::Failure(FailureReason::TransportError(d))) => {
            assert_eq!(d, "reset");
        }
        _ => panic!("expected the first terminal result"),
    }
    // later polls observe no further event and no second result
    let after = c.poll();
    assert!(after.events.is_empty());
    assert!(after.result.is_none());
    assert_eq!(c.current_state(), LifecycleState::Idle);
}

#[test]
fn failure_returns_to_idle_and_respawn_succeeds() {
    let mut c = spawned(4);
    let mut w = FetchWorker::start(&mut c, Ok(Some(b"image/png".to_vec())));
    assert!(w.on_chunk(&mut c, Err(String::from("connection lost"))));
    // while the result waits, spawning is still rejected
    assert!(!c.spawn(String::from("next")));
    let out = c.poll();
    assert!(matches!(
        out.result,
        Some(TerminalResult::Failure(FailureReason::TransportError(_)))
    ));
    assert_eq!(c.current_state(), LifecycleState::Idle);
    assert!(c.spawn(String::from("next")));
}

#[test]
fn cancel_before_first_chunk_resolves_canceled() {
    let mut c = spawned(4);
    let mut w = FetchWorker::start(&mut c, Ok(Some(b"image/jpeg".to_vec())));
    c.cancel();
    // the first checkpoint observes the request; the chunk in hand is
    // discarded and the task never resolves with success
    let done = w.on_chunk(&mut c, Ok(vec![1u8, 2, 3]));
    assert!(done);
    let out = c.poll();
    assert!(out.events.is_empty());
    assert!(matches!(
        out.result,
        Some(TerminalResult::Failure(FailureReason::CancellationRequested))
    ));
    assert_eq!(c.current_state(), LifecycleState::Idle);
}

#[test]
fn html_kind_rejected_without_reading_body() {
    let mut c = spawned(4);
    let w = FetchWorker::start(&mut c, Ok(Some(b"text/html".to_vec())));
    // the worker is already done: no chunk is ever requested
    assert!(!w.is_streaming_now());
    let out = c.poll();
    assert!(out.events.is_empty());
    match out.result {
        Some(TerminalResult::Failure(FailureReason::UnexpectedContentKind(kind))) => {
            assert_eq!(kind, b"text/html".to_vec());
        }
        _ => panic!("expected the unexpected-kind failure"),
    }
}

#[test]
fn missing_kind_rejected() {
    let mut c = spawned(4);
    let _w = FetchWorker::start(&mut c, Ok(None));
    let out = c.poll();
    assert!(matches!(
        out.result,
        Some(TerminalResult::Failure(FailureReason::MissingMetadata))
    ));
}

#[test]
fn connect_failure_resolves_transport_error() {
    let mut c = spawned(4);
    let _w = FetchWorker::start(&mut c, Err(String::from("dns")));
    let out = c.poll();
    match out.result {
        Some(TerminalResult::Failure(FailureReason::TransportError(d))) => {
            assert_eq!(d, "dns");
        }
        _ => panic!("expected a transport failure"),
    }
}

#[test]
fn cancel_after_two_of_five_chunks() {
    let chunks: Vec<Vec<u8>> = vec![
        vec![0u8; 3],
        vec![0u8; 4],
        vec![0u8; 5],
        vec![0u8; 6],
        vec![0u8; 7],
    ];
    let mut c = spawned(8);
    let mut w = FetchWorker::start(&mut c, Ok(Some(b"image/png".to_vec())));
    assert!(!w.on_chunk(&mut c, Ok(chunks[0].clone())));
    assert!(!w.on_chunk(&mut c, Ok(chunks[1].clone())));
    let mid = c.poll();
    let mut total: usize = 0;
    for e in &mid.events {
        if let ProgressEvent::BytesReceived(n) = e {
            total += n;
        }
    }
    c.cancel();
    assert!(w.on_chunk(&mut c, Ok(chunks[2].clone())));
    let out = c.poll();
    for e in &out.events {
        if let ProgressEvent::BytesReceived(n) = e {
            total += n;
        }
    }
    // only the first two chunks were ever counted
    assert_eq!(total, 3 + 4);
    assert!(matches!(
        out.result,
        Some(TerminalResult::Failure(FailureReason::CancellationRequested))
    ));
}

#[test]
fn five_chunks_stream_and_decode_successfully() {
    let bytes = tiny_bmp();
    let mut c = spawned(16);
    let mut w = FetchWorker::start(&mut c, Ok(Some(b"image/png".to_vec())));
    let bounds = [0usize, 10, 20, 30, 40, 58];
    for k in 0..5 {
        let chunk = bytes[bounds[k]..bounds[k + 1]].to_vec();
        assert!(!w.on_chunk(&mut c, Ok(chunk)));
    }
    w.on_stream_end(&mut c);
    let out = c.poll();
    let mut total: usize = 0;
    let mut decode_marks: usize = 0;
    for e in &out.events {
        match e {
            ProgressEvent::BytesReceived(n) => total += n,
            ProgressEvent::DecodeStarted => decode_marks += 1,
        }
    }
    assert_eq!(decode_marks, 1);
    match out.result {
        Some(TerminalResult::Success(Container::Image(a))) => {
            // the progress totals are the truth about the artifact's source
            assert_eq!(total, a.source_len);
            assert_eq!(a.source_len, 58);
            assert_eq!(a.width, 1);
            assert_eq!(a.height, 1);
            assert_eq!(a.debug_name, "https://example.test/img");
        }
        _ => panic!("expected a decoded artifact"),
    }
    assert_eq!(c.current_state(), LifecycleState::Idle);
}

#[test]
fn undecodable_bytes_resolve_decode_error() {
    let mut c = spawned(8);
    let mut w = FetchWorker::start(&mut c, Ok(Some(b"image/png".to_vec())));
    assert!(!w.on_chunk(&mut c, Ok(vec![9u8, 9, 9, 9])));
    w.on_stream_end(&mut c);
    let out = c.poll();
    assert!(matches!(
        out.result,
        Some(TerminalResult::Failure(FailureReason::DecodeError(_)))
    ));
    assert_eq!(c.current_state(), LifecycleState::Idle);
}

#[test]
fn cancel_observed_at_stream_end() {
    let mut c = spawned(8);
    let mut w = FetchWorker::start(&mut c, Ok(Some(b"image/png".to_vec())));
    assert!(!w.on_chunk(&mut c, Ok(tiny_bmp())));
    c.cancel();
    // even a fully decodable buffer does not win against the checkpoint
    w.on_stream_end(&mut c);
    let out = c.poll();
    assert!(matches!(
        out.result,
        Some(TerminalResult::Failure(FailureReason::CancellationRequested))
    ));
}

#[test]
fn accepted_kind_set() {
    assert!(is_accepted_kind(&b"image/jpeg".to_vec()));
    assert!(is_accepted_kind(&b"image/png".to_vec()));
    assert!(is_accepted_kind(&b"image/png; charset=utf-8".to_vec()));
    assert!(!is_accepted_kind(&b"text/html".to_vec()));
    assert!(!is_accepted_kind(&b"image/gif".to_vec()));
    assert!(!is_accepted_kind(&b"image/pn".to_vec()));
}

#[test]
fn handle_resolves_exactly_once() {
    let mut h = TaskHandle::new(2, String::from("s"));
    h.activate();
    let first = h.resolve(TerminalResult::Failure(FailureReason::MissingMetadata));
    assert!(first.is_ok());
    let second = h.resolve(TerminalResult::Failure(FailureReason::MissingMetadata));
    assert!(matches!(second, Err(FailureReason::ProtocolViolation)));
    assert!(matches!(
        h.take_result(),
        Some(TerminalResult::Failure(FailureReason::MissingMetadata))
    ));
    assert!(h.take_result().is_none());
}

#[test]
fn channel_delivers_in_order_and_once() {
    let mut ch = ProgressChannel::new(2);
    ch.activate();
    ch.send(ProgressEvent::BytesReceived(1));
    ch.send(ProgressEvent::BytesReceived(2));
    let batch = ch.try_drain();
    assert_eq!(
        batch,
        vec![ProgressEvent::BytesReceived(1), ProgressEvent::BytesReceived(2)]
    );
    assert!(ch.try_drain().is_empty());
    ch.send(ProgressEvent::DecodeStarted);
    assert_eq!(ch.try_drain(), vec![ProgressEvent::DecodeStarted]);
}

#[test]
fn channel_room_tracks_capacity() {
    let mut ch = ProgressChannel::new(1);
    ch.activate();
    assert!(ch.has_room_now());
    ch.send(ProgressEvent::BytesReceived(9));
    // the bound is reached: the producer would block here until a drain
    assert!(!ch.has_room_now());
    let batch = ch.try_drain();
    assert_eq!(batch, vec![ProgressEvent::BytesReceived(9)]);
    assert!(ch.has_room_now());
}

#[test]
fn pipeline_tags_carry_their_payloads() {
    let progress = taskflow::progress::Channel::Image(512);
    assert_eq!(progress, taskflow::progress::Channel::Image(512));
    assert_ne!(progress, taskflow::progress::Channel::Data(512));
    let cause = taskflow::outcome::ErrCause::Data(String::from("short read"));
    match cause {
        taskflow::outcome::ErrCause::Data(d) => assert_eq!(d, "short read"),
        taskflow::outcome::ErrCause::Image(_) => panic!("wrong side of the pipeline"),
    }
}
