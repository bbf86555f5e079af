use std::io::ErrorKind;

use ingestd::{
    queue, AllocationError, DrainPoll, LiveBody, LiveRead, Overrun, Phase, Queue, Ring,
    RingBuffer, RingState, SourceRead, Step, TailRead, RING_SIZE,
};

fn state(capacity: usize) -> RingState<u32> {
    RingState::new(capacity).unwrap()
}

fn assert_cursor_bounds(s: &RingState<u32>) {
    let c = s.capacity() as u64;
    assert!(s.bytes_drained() <= s.bytes_written());
    assert!(s.bytes_written() <= s.bytes_drained() + c);
}

/// Drains everything committed so far, as durable storage would receive it.
fn drain_all(s: &mut RingState<u32>, storage: &mut Vec<u8>) {
    loop {
        let mut chunk = Vec::new();
        match s.poll_fill_buf(0, 4, &mut chunk) {
            DrainPoll::Data(n) => {
                assert_eq!(n, chunk.len());
                storage.extend_from_slice(&chunk);
                s.consume(n);
                assert_cursor_bounds(s);
            }
            _ => return,
        }
    }
}

/// Reads from durable storage the way a positional file read would.
fn storage_range(storage: &[u8], offset: u64, len: usize) -> Vec<u8> {
    let start = (offset as usize).min(storage.len());
    let end = (start + len).min(storage.len());
    storage[start..end].to_vec()
}

#[test]
fn zero_capacity_is_an_allocation_error() {
    assert!(matches!(RingBuffer::allocate(0), Err(AllocationError)));
    assert!(RingState::<u32>::new(0).is_err());
    assert!(queue::<u32>(0).is_err());
    assert_eq!(RingBuffer::allocate(3).unwrap().capacity(), 3);
}

#[test]
fn ring_buffer_wraps_offsets() {
    let mut b = RingBuffer::allocate(4).unwrap();
    b.store(5, 7);
    assert_eq!(b.byte_at(1), 7);
    assert_eq!(b.byte_at(9), 7);
    assert_eq!(b.byte_at(2), 0);
}

#[test]
fn default_capacity_is_512_kib() {
    assert_eq!(RING_SIZE, 512 * 1024);
    let s = state(RING_SIZE);
    assert_eq!(s.free_space(), 524288);
}

#[test]
fn queue_flow_control() {
    let mut q: Queue<u32> = queue(4).unwrap();
    assert_eq!(q.free_space(), 4);
    assert_eq!(q.readable(), 0);
    q.wait_for_data(9);
    assert_eq!(q.written(b"abc"), Some(9));
    assert_eq!(q.free_space(), 1);
    assert_eq!(q.readable(), 3);
    q.wait_for_space(5);
    assert_eq!(q.consume(2), Some(5));
    assert_eq!(q.consume(0), None);
    assert_eq!(q.free_space(), 3);
    assert_eq!(q.written(b"def"), None);
    assert_eq!(q.write_cursor(), 6);
    assert_eq!(q.drain_cursor(), 2);
    let mut out = Vec::new();
    q.buffer_from(2, 4, &mut out);
    assert_eq!(out, b"cdef".to_vec());
    assert!(!q.drain_abandoned());
    q.abandon_drain();
    assert!(q.drain_abandoned());
}

#[test]
fn cursors_stay_ordered_over_commits_and_drains() {
    let mut s = state(5);
    let mut storage = Vec::new();
    let mut produced = Vec::new();
    for round in 0u8..20 {
        let free = s.free_space();
        let n = (round as usize % 4 + 1).min(free);
        let bytes: Vec<u8> = (0..n).map(|i| round.wrapping_mul(7).wrapping_add(i as u8)).collect();
        s.commit(&bytes);
        produced.extend_from_slice(&bytes);
        assert_cursor_bounds(&s);
        if round % 3 == 0 {
            drain_all(&mut s, &mut storage);
        }
    }
    drain_all(&mut s, &mut storage);
    assert_eq!(storage, produced);
    assert_eq!(s.bytes_drained(), s.bytes_written());
}

#[test]
fn drain_reports_end_and_errors_only_when_empty() {
    let mut s = state(8);
    let mut out = Vec::new();
    assert!(matches!(s.poll_fill_buf(1, 8, &mut out), DrainPoll::Pending));
    assert_eq!(s.commit(b"xy"), Some(1));
    assert_eq!(s.close(Some(ErrorKind::ConnectionReset)), None);
    assert!(matches!(s.poll_fill_buf(2, 8, &mut out), DrainPoll::Data(2)));
    assert_eq!(out, b"xy".to_vec());
    s.consume(2);
    match s.poll_fill_buf(3, 8, &mut out) {
        DrainPoll::Failed(k) => assert_eq!(k, ErrorKind::ConnectionReset),
        _ => panic!("expected the source error"),
    }
    let mut t = state(8);
    t.close(None);
    assert!(matches!(t.poll_fill_buf(1, 8, &mut out), DrainPoll::Eof));
}

#[test]
fn prompt_reader_copies_stream_without_overrun() {
    let mut s = state(6);
    let mut reader = s.attach();
    let mut out = Vec::new();
    let mut storage = Vec::new();
    let mut produced = Vec::new();
    for round in 0u8..12 {
        let bytes: Vec<u8> = (0..(round % 5 + 1)).map(|i| b'a' + (round + i) % 26).collect();
        let bytes = &bytes[..bytes.len().min(s.free_space())];
        s.commit(bytes);
        produced.extend_from_slice(bytes);
        loop {
            match reader.poll_read(&mut s, 1, 3, &mut out) {
                TailRead::Data(_) => {}
                TailRead::Pending => break,
                _ => panic!("a prompt reader sees only data"),
            }
        }
        drain_all(&mut s, &mut storage);
    }
    s.close(None);
    assert!(matches!(reader.poll_read(&mut s, 1, 3, &mut out), TailRead::Eof));
    assert_eq!(out, produced);
    assert_eq!(reader.bytes_read(), produced.len() as u64);
}

#[test]
fn reader_poll_parks_its_waker() {
    let mut s = state(4);
    let mut a = s.attach();
    let mut b = s.attach();
    assert_eq!((a.waker_id(), b.waker_id()), (0, 1));
    let mut out = Vec::new();
    assert!(matches!(a.poll_read(&mut s, 10, 4, &mut out), TailRead::Pending));
    assert!(matches!(b.poll_read(&mut s, 11, 4, &mut out), TailRead::Pending));
    assert_eq!(s.take_reader_wakers(), vec![10, 11]);
    assert_eq!(s.take_reader_wakers(), Vec::<u32>::new());
    assert_eq!(s.attachments(), 2);
}

#[test]
fn stalled_reader_overruns_once_then_recovers_from_storage() {
    let mut s = state(8);
    let mut storage = Vec::new();
    let mut body = LiveBody::new(s.attach());
    s.commit(b"ABCDEFGH");
    drain_all(&mut s, &mut storage);
    s.commit(b"IJ");
    s.close(None);

    let mut out = Vec::new();
    let mut overruns = 0;
    match body.read(&mut s, 1, 2, &mut out) {
        LiveRead::FromStorage { offset, len } => {
            overruns += 1;
            assert_eq!((offset, len), (0, 2));
            let recovered = storage_range(&storage, offset, len);
            assert_eq!(recovered, b"AB".to_vec());
            assert_eq!(body.storage_read(Ok(recovered), &mut out), Ok(2));
        }
        _ => panic!("expected an overrun"),
    }
    assert_eq!(body.bytes_read(), 2);
    let mut live = Vec::new();
    loop {
        match body.read(&mut s, 1, 8, &mut live) {
            LiveRead::Data(_) => {}
            LiveRead::Eof => break,
            LiveRead::FromStorage { .. } => overruns += 1,
            _ => panic!("unexpected outcome"),
        }
    }
    assert_eq!(live, b"CDEFGHIJ".to_vec());
    out.extend_from_slice(&live);
    assert_eq!(out, b"ABCDEFGHIJ".to_vec());
    assert_eq!(overruns, 1);
}

#[test]
fn raw_reader_reports_overrun() {
    let mut s = state(2);
    let mut r = s.attach();
    s.commit(b"ab");
    s.consume(2);
    s.commit(b"c");
    let mut out = Vec::new();
    assert!(matches!(r.poll_read(&mut s, 0, 9, &mut out), TailRead::Overrun(Overrun)));
    assert!(out.is_empty());
    r.skip(1);
    assert!(matches!(r.poll_read(&mut s, 0, 9, &mut out), TailRead::Data(2)));
    assert_eq!(out, b"bc".to_vec());
}

#[test]
fn failed_storage_read_changes_nothing() {
    let mut s = state(4);
    let mut body = LiveBody::new(s.attach());
    let mut out = vec![1u8];
    assert_eq!(body.storage_read(Err(ErrorKind::NotFound), &mut out), Err(ErrorKind::NotFound));
    assert_eq!(out, vec![1u8]);
    assert_eq!(body.bytes_read(), 0);
}

#[test]
fn two_readers_attached_at_different_times() {
    let stream: Vec<u8> = (0u8..20).map(|i| b'a' + i).collect();
    let mut s = state(16);
    let mut storage = Vec::new();
    let mut first = LiveBody::new(s.attach());
    s.commit(&stream[..5]);
    let mut second = LiveBody::new(s.attach());
    let mut out_first = Vec::new();
    let mut out_second = Vec::new();
    let mut overruns = [0usize; 2];

    assert!(matches!(second.read(&mut s, 2, 64, &mut out_second), LiveRead::Data(5)));
    drain_all(&mut s, &mut storage);
    s.commit(&stream[5..]);
    drain_all(&mut s, &mut storage);
    s.close(None);

    for (i, (body, out)) in [(&mut first, &mut out_first), (&mut second, &mut out_second)]
        .into_iter()
        .enumerate()
    {
        loop {
            match body.read(&mut s, i as u32, 8, out) {
                LiveRead::Data(_) => {}
                LiveRead::Eof => break,
                LiveRead::FromStorage { offset, len } => {
                    overruns[i] += 1;
                    let recovered = storage_range(&storage, offset, len);
                    assert!(!recovered.is_empty());
                    body.storage_read(Ok(recovered), out).unwrap();
                }
                _ => panic!("unexpected outcome"),
            }
        }
    }
    assert_eq!(out_first, stream);
    assert_eq!(out_second, stream);
    assert_eq!(overruns, [1, 0]);
}

#[test]
fn attaching_readers_leaves_producer_drain_and_other_readers_alone() {
    let mut s = state(4);
    let mut first = s.attach();
    s.commit(b"wxyz");
    let mut out = Vec::new();
    assert!(matches!(first.poll_read(&mut s, 0, 2, &mut out), TailRead::Data(2)));
    let before = (s.free_space(), s.bytes_written(), s.bytes_drained());
    let mut later: Vec<_> = (0..5).map(|_| s.attach()).collect();
    assert_eq!((s.free_space(), s.bytes_written(), s.bytes_drained()), before);
    assert_eq!(first.bytes_read(), 2);
    for r in later.iter_mut() {
        let mut o = Vec::new();
        r.poll_read(&mut s, 7, 1, &mut o);
    }
    drop(later);
    assert_eq!((s.free_space(), s.bytes_written(), s.bytes_drained()), before);
    assert!(matches!(first.poll_read(&mut s, 0, 8, &mut out), TailRead::Data(2)));
    assert_eq!(out, b"wxyz".to_vec());
}

#[test]
fn source_failure_reaches_readers() {
    let mut s = state(4);
    let mut ring: Ring<Result<(), String>> = Ring::new();
    let mut r = ring.push(&mut s);
    let mut out = Vec::new();
    assert!(matches!(r.poll_read(&mut s, 3, 4, &mut out), TailRead::Pending));
    assert!(matches!(ring.poll(&mut s, None, false, 0), Step::Pull(4)));
    let woken = ring.source_ready(&mut s, SourceRead::Failed(ErrorKind::UnexpectedEof));
    assert_eq!(woken, vec![3]);
    match r.poll_read(&mut s, 3, 4, &mut out) {
        TailRead::Failed(k) => assert_eq!(k, ErrorKind::UnexpectedEof),
        _ => panic!("expected the source error"),
    }
    assert_eq!(s.closed(), Some(Some(ErrorKind::UnexpectedEof)));
}

#[test]
fn orchestrator_pulls_commits_and_waits_for_space() {
    let mut s = state(4);
    let mut ring: Ring<Result<(), String>> = Ring::new();
    let mut out = Vec::new();
    assert!(matches!(s.poll_fill_buf(8, 4, &mut out), DrainPoll::Pending));
    assert!(matches!(ring.poll(&mut s, None, true, 0), Step::Pull(4)));
    let woken = ring.source_ready(&mut s, SourceRead::Data(b"abcd".to_vec()));
    assert_eq!(woken, vec![8]);
    match ring.poll(&mut s, None, true, 5) {
        Step::Wait(w) => assert!(w.is_empty()),
        _ => panic!("the buffer is full"),
    }
    assert_eq!(s.consume(3), Some(5));
    assert!(matches!(ring.poll(&mut s, None, true, 5), Step::Pull(3)));
    ring.source_ready(&mut s, SourceRead::Data(Vec::new()));
    assert_eq!(s.closed(), Some(None));
    match ring.poll(&mut s, None, true, 5) {
        Step::Wait(w) => assert!(w.is_empty()),
        _ => panic!("the source is done"),
    }
}

#[test]
fn orchestrator_result_waits_for_readers() {
    let mut s = state(4);
    let mut ring: Ring<Result<(), String>> = Ring::new();
    let mut r = ring.push(&mut s);
    let mut out = Vec::new();
    r.poll_read(&mut s, 4, 4, &mut out);
    match ring.poll(&mut s, Some(Err("disk full".to_string())), false, 0) {
        Step::Wait(w) => assert_eq!(w, vec![4]),
        _ => panic!("a reader is still attached"),
    }
    assert_eq!(s.closed(), Some(None));
    assert!(!ring.is_terminated());
    let _late = ring.push(&mut s);
    assert!(matches!(ring.poll(&mut s, None, false, 0), Step::Wait(_)));
    match ring.poll(&mut s, None, true, 0) {
        Step::Finished(res) => assert_eq!(res, Err("disk full".to_string())),
        _ => panic!("no reader is left"),
    }
    assert!(ring.is_terminated());
}

#[test]
fn orchestrator_result_at_once_without_readers() {
    let mut s = state(4);
    let mut ring: Ring<u8> = Ring::new();
    match ring.poll(&mut s, Some(7), true, 0) {
        Step::Finished(res) => assert_eq!(res, 7),
        _ => panic!("nothing to wait for"),
    }
    assert!(ring.is_terminated());
    let _ = Phase::<u8>::Running;
}

#[test]
fn abandoned_drain_stops_the_source() {
    let mut s = state(4);
    let mut ring: Ring<u8> = Ring::new();
    s.abandon_drain();
    assert!(s.drain_abandoned());
    assert!(matches!(ring.poll(&mut s, None, false, 0), Step::Wait(_)));
    assert_eq!(s.closed(), Some(None));
}
