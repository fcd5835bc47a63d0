//! The connection worker: one per arena slot, each looping forever through
//! listen, accept, serve and reset on the shared port. The task running a
//! worker performs each action on its socket and hands back what happened.
use vstd::prelude::*;
use crate::arena::{WorkerSlot, ArenaError, partition, slot_is, slice_size};

verus! {

/// The port every worker listens on.
pub const LISTEN_PORT: u16 = 9000;

/// Idle time after which a connection is torn down, in seconds.
pub const SOCKET_TIMEOUT_SECS: u64 = 10;

#[derive(Clone, Copy, Debug, PartialEq, Eq, Structural)]
pub enum WorkerPhase {
    /// A fresh socket waits for a peer.
    Listening,
    /// A peer is connected and the worker reads from it.
    Serving,
}

/// What happened on the worker's socket.
#[derive(Clone, Copy, Debug, PartialEq, Eq, Structural)]
pub enum WorkerEvent {
    Accepted,
    AcceptFailed,
    /// A read returned this many bytes; zero means the peer closed.
    Received(usize),
    ReadFailed,
    /// No data arrived for this many seconds.
    Idle(u64),
}

/// Why a socket is dropped.
#[derive(Clone, Copy, Debug, PartialEq, Eq, Structural)]
pub enum ResetCause {
    AcceptError,
    EndOfStream,
    ReadError,
    TimedOut,
    UnexpectedEvent,
}

/// What the task must do next with the worker's socket.
#[derive(Clone, Copy, Debug, PartialEq, Eq, Structural)]
pub enum WorkerAction {
    /// Wait for a peer on `LISTEN_PORT`.
    Accept,
    /// Read into the scratch buffer.
    Read,
    /// Drop the socket, build a fresh one on the same buffers, then accept.
    Reset(ResetCause),
}

/// The transition table of one worker whose sockets time out after
/// `timeout` seconds without data and whose scratch buffer holds `capacity`
/// bytes. A read that claims more bytes than the buffer holds is a read
/// error: no byte past the buffer is ever served.
pub open spec fn worker_next(phase: WorkerPhase, timeout: u64, capacity: usize, ev: WorkerEvent) -> (WorkerPhase, WorkerAction) {
    match (phase, ev) {
        (WorkerPhase::Listening, WorkerEvent::Accepted) => (WorkerPhase::Serving, WorkerAction::Read),
        (WorkerPhase::Listening, WorkerEvent::AcceptFailed) => (
            WorkerPhase::Listening,
            WorkerAction::Reset(ResetCause::AcceptError),
        ),
        (WorkerPhase::Listening, WorkerEvent::Idle(_)) => (WorkerPhase::Listening, WorkerAction::Accept),
        (WorkerPhase::Serving, WorkerEvent::Received(n)) => {
            if n == 0 {
                (WorkerPhase::Listening, WorkerAction::Reset(ResetCause::EndOfStream))
            } else if n > capacity {
                (WorkerPhase::Listening, WorkerAction::Reset(ResetCause::ReadError))
            } else {
                (WorkerPhase::Serving, WorkerAction::Read)
            }
        },
        (WorkerPhase::Serving, WorkerEvent::ReadFailed) => (
            WorkerPhase::Listening,
            WorkerAction::Reset(ResetCause::ReadError),
        ),
        (WorkerPhase::Serving, WorkerEvent::Idle(secs)) => {
            if secs >= timeout {
                (WorkerPhase::Listening, WorkerAction::Reset(ResetCause::TimedOut))
            } else {
                (WorkerPhase::Serving, WorkerAction::Read)
            }
        },
        _ => (WorkerPhase::Listening, WorkerAction::Reset(ResetCause::UnexpectedEvent)),
    }
}

/// One worker: its ordinal, the buffers it owns for its whole life, and the
/// state of its current socket.
pub struct Worker {
    slot: WorkerSlot,
    timeout: u64,
    phase: WorkerPhase,
}

impl Worker {
    pub closed spec fn spec_slot(&self) -> WorkerSlot {
        self.slot
    }

    pub closed spec fn spec_timeout(&self) -> u64 {
        self.timeout
    }

    pub closed spec fn spec_phase(&self) -> WorkerPhase {
        self.phase
    }

    /// A worker on `slot`, listening.
    pub fn new(slot: WorkerSlot, timeout: u64) -> (r: Worker)
        ensures
            r.spec_slot() == slot,
            r.spec_timeout() == timeout,
            r.spec_phase() == WorkerPhase::Listening,
    {
        Worker { slot, timeout, phase: WorkerPhase::Listening }
    }

    /// Takes one transition on `ev` and returns the next action. The worker
    /// keeps its buffers whatever happens, and every reset leaves it
    /// listening on a fresh socket.
    pub fn step(&mut self, ev: WorkerEvent) -> (r: WorkerAction)
        ensures
            (final(self).spec_phase(), r) == worker_next(
                old(self).spec_phase(),
                old(self).spec_timeout(),
                old(self).spec_slot().recv.len,
                ev,
            ),
            final(self).spec_slot() == old(self).spec_slot(),
            final(self).spec_timeout() == old(self).spec_timeout(),
            r is Reset ==> final(self).spec_phase() == WorkerPhase::Listening,
    {
        let next = match (self.phase, ev) {
            (WorkerPhase::Listening, WorkerEvent::Accepted) => (WorkerPhase::Serving, WorkerAction::Read),
            (WorkerPhase::Listening, WorkerEvent::AcceptFailed) => (
                WorkerPhase::Listening,
                WorkerAction::Reset(ResetCause::AcceptError),
            ),
            (WorkerPhase::Listening, WorkerEvent::Idle(_)) => (WorkerPhase::Listening, WorkerAction::Accept),
            (WorkerPhase::Serving, WorkerEvent::Received(n)) => {
                if n == 0 {
                    (WorkerPhase::Listening, WorkerAction::Reset(ResetCause::EndOfStream))
                } else if n > self.slot.recv.len {
                    (WorkerPhase::Listening, WorkerAction::Reset(ResetCause::ReadError))
                } else {
                    (WorkerPhase::Serving, WorkerAction::Read)
                }
            },
            (WorkerPhase::Serving, WorkerEvent::ReadFailed) => (
                WorkerPhase::Listening,
                WorkerAction::Reset(ResetCause::ReadError),
            ),
            (WorkerPhase::Serving, WorkerEvent::Idle(secs)) => {
                if secs >= self.timeout {
                    (WorkerPhase::Listening, WorkerAction::Reset(ResetCause::TimedOut))
                } else {
                    (WorkerPhase::Serving, WorkerAction::Read)
                }
            },
            _ => (WorkerPhase::Listening, WorkerAction::Reset(ResetCause::UnexpectedEvent)),
        };
        self.phase = next.0;
        next.1
    }

    pub fn index(&self) -> (r: usize)
        ensures
            r == self.spec_slot().index,
    {
        self.slot.index
    }

    pub fn slot(&self) -> (r: WorkerSlot)
        ensures
            r == self.spec_slot(),
    {
        self.slot
    }

    pub fn timeout(&self) -> (r: u64)
        ensures
            r == self.spec_timeout(),
    {
        self.timeout
    }

    pub fn phase(&self) -> (r: WorkerPhase)
        ensures
            r == self.spec_phase(),
    {
        self.phase
    }
}

/// The bytes that a read of `n` bytes into `scratch` delivers.
pub open spec fn received_view(scratch: Seq<u8>, n: int) -> Seq<u8> {
    scratch.subrange(0, n)
}

/// The bytes of one read: the first `n` bytes of the scratch buffer. Whatever
/// lies beyond `n`, left there by an earlier read or connection, is not part
/// of it. A count past the end of the buffer gives `None`.
pub fn received_bytes(scratch: &[u8], n: usize) -> (r: Option<Vec<u8>>)
    ensures
        r is None <==> n > scratch@.len(),
        r matches Some(v) ==> v@ == received_view(scratch@, n as int),
{
    if n > scratch.len() {
        return None;
    }
    let mut out: Vec<u8> = Vec::new();
    let mut i: usize = 0;
    while i < n
        invariant
            i <= n,
            n <= scratch@.len(),
            out@ == scratch@.subrange(0, i as int),
        decreases n - i,
    {
        out.push(scratch[i]);
        i = i + 1;
    }
    Some(out)
}

/// Worker `i` of a new pool: on slot `i` of the partition, with the pool's
/// timeout, listening.
pub open spec fn fresh_worker(w: Worker, i: int, rx: int, tx: int, recv: int, timeout: u64) -> bool {
    &&& slot_is(w.spec_slot(), i, rx, tx, recv)
    &&& w.spec_timeout() == timeout
    &&& w.spec_phase() == WorkerPhase::Listening
}

/// Builds the pool: one listening worker per slot of the arena, worker `i` on
/// slot `i`. Fails exactly when `partition` does.
pub fn worker_pool(tasks: usize, rx: usize, tx: usize, recv: usize, arena_len: usize, timeout: u64) -> (r: Result<Vec<Worker>, ArenaError>)
    ensures
        r.is_ok() <==> arena_len == tasks * slice_size(rx as int, tx as int, recv as int),
        r matches Ok(v) ==> {
            &&& v@.len() == tasks
            &&& forall|i: int| 0 <= i < tasks ==> #[trigger] fresh_worker(v@[i], i, rx as int, tx as int, recv as int, timeout)
        },
{
    let slots = match partition(tasks, rx, tx, recv, arena_len) {
        Ok(s) => s,
        Err(e) => return Err(e),
    };
    let mut workers: Vec<Worker> = Vec::new();
    let mut i: usize = 0;
    while i < slots.len()
        invariant
            slots@.len() == tasks,
            forall|k: int| 0 <= k < tasks ==> #[trigger] slot_is(slots@[k], k, rx as int, tx as int, recv as int),
            i <= tasks,
            workers@.len() == i,
            forall|k: int| 0 <= k < i ==> #[trigger] fresh_worker(workers@[k], k, rx as int, tx as int, recv as int, timeout),
        decreases tasks - i,
    {
        let w = Worker::new(slots[i], timeout);
        let ghost before = workers@;
        workers.push(w);
        assert(slot_is(slots@[i as int], i as int, rx as int, tx as int, recv as int));
        assert forall|k: int| 0 <= k < i + 1 implies #[trigger] fresh_worker(workers@[k], k, rx as int, tx as int, recv as int, timeout) by {
            if k < i {
                assert(workers@[k] == before[k]);
                assert(fresh_worker(before[k], k, rx as int, tx as int, recv as int, timeout));
            }
        }
        i = i + 1;
    }
    Ok(workers)
}

/// A worker serving a peer that closes without sending anything reports end
/// of stream, goes back to listening and keeps its own buffers.
pub proof fn lemma_eof_returns_to_listening(phase: WorkerPhase, timeout: u64, capacity: usize)
    requires
        phase == WorkerPhase::Serving,
    ensures
        worker_next(phase, timeout, capacity, WorkerEvent::Received(0))
            == (WorkerPhase::Listening, WorkerAction::Reset(ResetCause::EndOfStream)),
{
}

/// Every reset, whatever its cause, leaves the worker listening on a new
/// socket: nothing of the connection just ended survives in its state.
pub proof fn lemma_reset_forgets_connection(phase: WorkerPhase, timeout: u64, capacity: usize, ev: WorkerEvent)
    ensures
        worker_next(phase, timeout, capacity, ev).1 is Reset ==> worker_next(phase, timeout, capacity, ev).0 == WorkerPhase::Listening,
{
}

/// Two scratch buffers that agree on their first `n` bytes, whatever they
/// hold past it, give the same bytes for a read of `n`: bytes left in the
/// buffer by an earlier connection are never seen by a later one.
pub proof fn lemma_stale_bytes_unseen(a: Seq<u8>, b: Seq<u8>, n: int)
    requires
        0 <= n <= a.len(),
        n <= b.len(),
        forall|k: int| 0 <= k < n ==> a[k] == b[k],
    ensures
        received_view(a, n) == received_view(b, n),
{
    assert(received_view(a, n) =~= received_view(b, n));
}

/// A worker goes on serving after a read of `n` bytes only when
/// `0 < n <= capacity`, and the bytes that read delivers from a scratch buffer
/// of that capacity are exactly its first `n`, in order; a read past the
/// buffer ends the connection and delivers nothing.
pub proof fn lemma_reads_stay_in_buffer(timeout: u64, capacity: usize, n: usize, scratch: Seq<u8>)
    requires
        scratch.len() == capacity,
    ensures
        worker_next(WorkerPhase::Serving, timeout, capacity, WorkerEvent::Received(n)).1 == WorkerAction::Read
            ==> {
            &&& 0 < n <= capacity
            &&& received_view(scratch, n as int).len() == n
            &&& forall|k: int| 0 <= k < n ==> #[trigger] received_view(scratch, n as int)[k] == scratch[k]
        },
        n > capacity ==> worker_next(WorkerPhase::Serving, timeout, capacity, WorkerEvent::Received(n))
            == (WorkerPhase::Listening, WorkerAction::Reset(ResetCause::ReadError)),
{
}

/// A connection that has sent some data and then stays silent for longer
/// than the timeout is torn down, not waited on forever.
pub proof fn lemma_silence_times_out(timeout: u64, capacity: usize, secs: u64)
    requires
        secs >= timeout,
    ensures
        worker_next(WorkerPhase::Serving, timeout, capacity, WorkerEvent::Idle(secs))
            == (WorkerPhase::Listening, WorkerAction::Reset(ResetCause::TimedOut)),
{
}

} // verus!
