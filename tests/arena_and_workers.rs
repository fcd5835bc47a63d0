use tcp_pool::arena::{partition, ArenaError, Span, WorkerSlot};
use tcp_pool::worker::{
    received_bytes, worker_pool, ResetCause, Worker, WorkerAction, WorkerEvent, WorkerPhase,
    SOCKET_TIMEOUT_SECS,
};

const RX: usize = 1500;
const TX: usize = 300;
const RECV: usize = 1500;
const SLICE: usize = RX + TX + RECV;

#[test]
fn partition_lays_out_slots_in_order() {
    let slots = partition(4, RX, TX, RECV, 4 * SLICE).unwrap();
    assert_eq!(slots.len(), 4);
    assert_eq!(
        slots[2],
        WorkerSlot {
            index: 2,
            rx: Span { start: 6600, len: 1500 },
            tx: Span { start: 8100, len: 300 },
            recv: Span { start: 8400, len: 1500 },
        }
    );
}

#[test]
fn partition_slots_are_disjoint_and_cover_the_arena() {
    let tasks = 4;
    let slots = partition(tasks, RX, TX, RECV, tasks * SLICE).unwrap();
    let mut owner = vec![usize::MAX; tasks * SLICE];
    for s in &slots {
        for span in [s.rx, s.tx, s.recv] {
            for b in span.start..span.start + span.len {
                assert_eq!(owner[b], usize::MAX, "byte {} owned twice", b);
                owner[b] = s.index;
            }
        }
    }
    assert!(owner.iter().all(|&o| o != usize::MAX));
    let total: usize = slots.iter().map(|s| s.rx.len + s.tx.len + s.recv.len).sum();
    assert_eq!(total, tasks * SLICE);
}

#[test]
fn partition_rejects_a_mismatched_arena() {
    assert_eq!(partition(4, RX, TX, RECV, 4 * SLICE - 1), Err(ArenaError::SizeMismatch));
    assert_eq!(partition(4, RX, TX, RECV, 4 * SLICE + 1), Err(ArenaError::SizeMismatch));
    assert_eq!(partition(0, RX, TX, RECV, 1), Err(ArenaError::SizeMismatch));
}

#[test]
fn partition_rejects_sizes_that_overflow() {
    assert_eq!(partition(2, usize::MAX, 1, 0, 0), Err(ArenaError::SizeMismatch));
    assert_eq!(partition(usize::MAX, 2, 0, 0, 0), Err(ArenaError::SizeMismatch));
}

#[test]
fn partition_of_no_workers_is_empty() {
    assert_eq!(partition(0, RX, TX, RECV, 0), Ok(vec![]));
}

fn served_worker() -> Worker {
    let slot = partition(1, RX, TX, RECV, SLICE).unwrap()[0];
    let mut w = Worker::new(slot, SOCKET_TIMEOUT_SECS);
    assert_eq!(w.step(WorkerEvent::Accepted), WorkerAction::Read);
    w
}

#[test]
fn eof_reports_end_of_stream_and_keeps_the_buffers() {
    let mut w = served_worker();
    let slot = w.slot();
    assert_eq!(w.step(WorkerEvent::Received(0)), WorkerAction::Reset(ResetCause::EndOfStream));
    assert_eq!(w.phase(), WorkerPhase::Listening);
    assert_eq!(w.slot(), slot);
    assert_eq!(w.step(WorkerEvent::Accepted), WorkerAction::Read);
}

#[test]
fn data_keeps_the_connection_open() {
    let mut w = served_worker();
    assert_eq!(w.step(WorkerEvent::Received(7)), WorkerAction::Read);
    assert_eq!(w.phase(), WorkerPhase::Serving);
}

#[test]
fn read_error_resets_the_socket() {
    let mut w = served_worker();
    assert_eq!(w.step(WorkerEvent::ReadFailed), WorkerAction::Reset(ResetCause::ReadError));
    assert_eq!(w.phase(), WorkerPhase::Listening);
}

#[test]
fn accept_error_restarts_the_loop() {
    let slot = partition(1, RX, TX, RECV, SLICE).unwrap()[0];
    let mut w = Worker::new(slot, SOCKET_TIMEOUT_SECS);
    assert_eq!(w.step(WorkerEvent::AcceptFailed), WorkerAction::Reset(ResetCause::AcceptError));
    assert_eq!(w.phase(), WorkerPhase::Listening);
    assert_eq!(w.step(WorkerEvent::Idle(30)), WorkerAction::Accept);
}

#[test]
fn silence_past_the_timeout_tears_the_connection_down() {
    let mut w = served_worker();
    let mut scratch = [0u8; RECV];
    scratch[..2].copy_from_slice(b"ab");
    assert_eq!(w.step(WorkerEvent::Received(2)), WorkerAction::Read);
    assert_eq!(received_bytes(&scratch, 2), Some(b"ab".to_vec()));
    assert_eq!(w.step(WorkerEvent::Idle(11)), WorkerAction::Reset(ResetCause::TimedOut));
    assert_eq!(w.phase(), WorkerPhase::Listening);
}

#[test]
fn silence_within_the_timeout_keeps_reading() {
    let mut w = served_worker();
    assert_eq!(w.step(WorkerEvent::Idle(9)), WorkerAction::Read);
    assert_eq!(w.step(WorkerEvent::Idle(10)), WorkerAction::Reset(ResetCause::TimedOut));
}

#[test]
fn a_second_connection_does_not_see_the_first_ones_bytes() {
    let mut w = served_worker();
    let mut scratch = [0u8; 16];
    scratch[..5].copy_from_slice(b"hello");
    assert_eq!(w.step(WorkerEvent::Received(5)), WorkerAction::Read);
    assert_eq!(received_bytes(&scratch, 5), Some(b"hello".to_vec()));
    assert_eq!(w.step(WorkerEvent::Received(0)), WorkerAction::Reset(ResetCause::EndOfStream));
    assert_eq!(w.step(WorkerEvent::Accepted), WorkerAction::Read);
    scratch[..2].copy_from_slice(b"hi");
    assert_eq!(w.step(WorkerEvent::Received(2)), WorkerAction::Read);
    assert_eq!(received_bytes(&scratch, 2), Some(b"hi".to_vec()));
    assert_eq!(received_bytes(&scratch, 0), Some(Vec::<u8>::new()));
}

#[test]
fn four_clients_are_served_by_four_distinct_workers() {
    let mut pool = worker_pool(4, RX, TX, RECV, 4 * SLICE, SOCKET_TIMEOUT_SECS).unwrap();
    assert_eq!(pool.len(), 4);
    for w in pool.iter_mut() {
        assert_eq!(w.step(WorkerEvent::Accepted), WorkerAction::Read);
    }
    let indices: Vec<usize> = pool.iter().map(|w| w.index()).collect();
    assert_eq!(indices, vec![0, 1, 2, 3]);
    for (i, w) in pool.iter().enumerate() {
        assert_eq!(w.phase(), WorkerPhase::Serving);
        assert_eq!(w.slot().rx.start, i * SLICE);
    }
    // A busy worker never takes a second peer: an accept reported while it
    // serves tears its socket down instead of sharing its buffers.
    assert_eq!(
        pool[0].step(WorkerEvent::Accepted),
        WorkerAction::Reset(ResetCause::UnexpectedEvent)
    );
}

#[test]
fn worker_pool_fails_on_a_mismatched_arena() {
    assert!(worker_pool(4, RX, TX, RECV, 3 * SLICE, SOCKET_TIMEOUT_SECS).is_err());
}

#[test]
fn worker_pool_gives_each_worker_the_timeout() {
    let pool = worker_pool(2, 4, 4, 4, 24, 3).unwrap();
    assert!(pool.iter().all(|w| w.timeout() == 3 && w.phase() == WorkerPhase::Listening));
    assert_eq!(pool[1].slot().recv, Span { start: 20, len: 4 });
}

#[test]
fn a_read_longer_than_the_scratch_buffer_is_a_read_error() {
    let mut w = served_worker();
    assert_eq!(w.step(WorkerEvent::Received(RECV)), WorkerAction::Read);
    assert_eq!(w.step(WorkerEvent::Received(RECV + 1)), WorkerAction::Reset(ResetCause::ReadError));
    assert_eq!(w.phase(), WorkerPhase::Listening);
}

#[test]
fn received_bytes_past_the_buffer_is_none() {
    let scratch = [1u8, 2, 3, 4];
    assert_eq!(received_bytes(&scratch, 4), Some(vec![1, 2, 3, 4]));
    assert_eq!(received_bytes(&scratch, 5), None);
}
