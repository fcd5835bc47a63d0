//! One fixed arena of bytes, cut once into equal per-worker slices, each slice
//! cut again into a receive buffer, a transmit buffer and a scratch read buffer.
use vstd::prelude::*;
use vstd::arithmetic::div_mod::{lemma_fundamental_div_mod, lemma_mod_pos_bound};

verus! {

/// A byte range `[start, start + len)` of the arena.
#[derive(Clone, Copy, Debug, PartialEq, Eq, Structural)]
pub struct Span {
    pub start: usize,
    pub len: usize,
}

/// The three buffers that one worker owns, all inside its own slice.
#[derive(Clone, Copy, Debug, PartialEq, Eq, Structural)]
pub struct WorkerSlot {
    pub index: usize,
    pub rx: Span,
    pub tx: Span,
    pub recv: Span,
}

/// The arena's declared size does not match `tasks * (rx + tx + recv)`.
#[derive(Clone, Copy, Debug, PartialEq, Eq, Structural)]
pub enum ArenaError {
    SizeMismatch,
}

pub open spec fn slice_size(rx: int, tx: int, recv: int) -> int {
    rx + tx + recv
}

pub open spec fn span_holds(s: Span, b: int) -> bool {
    s.start <= b < s.start + s.len
}

/// Byte `b` of the arena belongs to one of the slot's buffers.
pub open spec fn slot_holds(s: WorkerSlot, b: int) -> bool {
    span_holds(s.rx, b) || span_holds(s.tx, b) || span_holds(s.recv, b)
}

/// Slot `i` of the partition: slice `i` of the arena, laid out as rx, tx, recv.
pub open spec fn slot_is(s: WorkerSlot, i: int, rx: int, tx: int, recv: int) -> bool {
    let base = i * slice_size(rx, tx, recv);
    &&& s.index == i
    &&& s.rx.len == rx
    &&& s.rx.start == base
    &&& s.tx.start == base + rx
    &&& s.tx.len == tx
    &&& s.recv.start == base + rx + tx
    &&& s.recv.len == recv
}

/// Byte `b` belongs to some slot of `slots`.
pub open spec fn covered(slots: Seq<WorkerSlot>, b: int) -> bool {
    exists|i: int| 0 <= i < slots.len() && #[trigger] slot_holds(slots[i], b)
}

pub open spec fn is_partition(slots: Seq<WorkerSlot>, tasks: int, rx: int, tx: int, recv: int) -> bool {
    &&& slots.len() == tasks
    &&& forall|i: int| 0 <= i < tasks ==> #[trigger] slot_is(slots[i], i, rx, tx, recv)
}

/// Cuts an arena of `arena_len` bytes into `tasks` slots of `rx + tx + recv`
/// bytes each. The arena must be exactly that large; anything else is a
/// configuration error.
pub fn partition(tasks: usize, rx: usize, tx: usize, recv: usize, arena_len: usize) -> (r: Result<Vec<WorkerSlot>, ArenaError>)
    ensures
        r.is_ok() <==> arena_len == tasks * slice_size(rx as int, tx as int, recv as int),
        r matches Ok(v) ==> is_partition(v@, tasks as int, rx as int, tx as int, recv as int),
        r matches Err(e) ==> e == ArenaError::SizeMismatch,
{
    let ghost s = slice_size(rx as int, tx as int, recv as int);
    if tasks == 0 {
        assert(tasks * s == 0);
        if arena_len == 0 {
            return Ok(Vec::new());
        }
        return Err(ArenaError::SizeMismatch);
    }
    assert(tasks * s >= s) by (nonlinear_arith)
        requires tasks >= 1, s >= 0;
    let slice = match rx.checked_add(tx) {
        Some(a) => match a.checked_add(recv) {
            Some(b) => b,
            None => return Err(ArenaError::SizeMismatch),
        },
        None => return Err(ArenaError::SizeMismatch),
    };
    let total = match tasks.checked_mul(slice) {
        Some(t) => t,
        None => return Err(ArenaError::SizeMismatch),
    };
    if total != arena_len {
        return Err(ArenaError::SizeMismatch);
    }
    let mut slots: Vec<WorkerSlot> = Vec::new();
    let mut i: usize = 0;
    while i < tasks
        invariant
            0 <= i <= tasks,
            slice as int == s,
            s == slice_size(rx as int, tx as int, recv as int),
            total as int == tasks * s,
            total == arena_len,
            slots@.len() == i,
            forall|k: int| 0 <= k < i ==> #[trigger] slot_is(slots@[k], k, rx as int, tx as int, recv as int),
        decreases tasks - i,
    {
        assert(i * s + s <= tasks * s) by (nonlinear_arith)
            requires i < tasks, s >= 0;
        let base = i * slice;
        assert(base == i as int * s);
        assert(base + rx + tx + recv <= total);
        let slot = WorkerSlot {
            index: i,
            rx: Span { start: base, len: rx },
            tx: Span { start: base + rx, len: tx },
            recv: Span { start: base + rx + tx, len: recv },
        };
        slots.push(slot);
        assert(slot_is(slots@[i as int], i as int, rx as int, tx as int, recv as int));
        i = i + 1;
    }
    Ok(slots)
}

/// Inside one slot, receive, transmit and scratch buffers never share a byte.
pub proof fn lemma_slot_buffers_disjoint(s: WorkerSlot, i: int, rx: int, tx: int, recv: int, b: int)
    requires
        slot_is(s, i, rx, tx, recv),
    ensures
        span_holds(s.rx, b) ==> !span_holds(s.tx, b) && !span_holds(s.recv, b),
        span_holds(s.tx, b) ==> !span_holds(s.recv, b),
{
}

/// A partition into `tasks` slots of `rx + tx + recv` bytes gives no byte to
/// two slots, and the slots together cover exactly the bytes
/// `[0, tasks * (rx + tx + recv))`.
pub proof fn lemma_partition_disjoint_and_covering(
    slots: Seq<WorkerSlot>,
    tasks: int,
    rx: int,
    tx: int,
    recv: int,
)
    requires
        0 <= tasks,
        0 <= rx,
        0 <= tx,
        0 <= recv,
        is_partition(slots, tasks, rx, tx, recv),
    ensures
        forall|i: int, j: int, b: int|
            0 <= i < tasks && 0 <= j < tasks && #[trigger] slot_holds(slots[i], b) && #[trigger] slot_holds(slots[j], b)
                ==> i == j,
        forall|b: int| #[trigger] covered(slots, b) <==> 0 <= b < tasks * slice_size(rx, tx, recv),
{
    let s = slice_size(rx, tx, recv);
    assert forall|i: int, b: int| 0 <= i < tasks && #[trigger] slot_holds(slots[i], b) implies i * s <= b < i * s + s by {
        assert(slot_is(slots[i], i, rx, tx, recv));
    }
    assert forall|i: int, j: int, b: int|
        0 <= i < tasks && 0 <= j < tasks && #[trigger] slot_holds(slots[i], b) && #[trigger] slot_holds(slots[j], b)
            implies i == j by {
        assert(i * s <= b < i * s + s);
        assert(j * s <= b < j * s + s);
        if i < j {
            assert(i * s + s <= j * s) by (nonlinear_arith)
                requires i < j, s >= 0;
        } else if j < i {
            assert(j * s + s <= i * s) by (nonlinear_arith)
                requires j < i, s >= 0;
        }
    }
    assert forall|b: int| #[trigger] covered(slots, b) <==> 0 <= b < tasks * s by {
        if 0 <= b < tasks * s {
            assert(s > 0) by (nonlinear_arith)
                requires 0 <= b < tasks * s, tasks >= 0, s >= 0;
            let i = b / s;
            lemma_fundamental_div_mod(b, s);
            lemma_mod_pos_bound(b, s);
            assert(i * s <= b < i * s + s) by (nonlinear_arith)
                requires b == s * i + b % s, 0 <= b % s < s;
            assert(0 <= i < tasks) by (nonlinear_arith)
                requires i * s <= b, b < i * s + s, b < tasks * s, s > 0, 0 <= b;
            assert(slot_is(slots[i], i, rx, tx, recv));
            assert(slot_holds(slots[i], b));
        }
        if covered(slots, b) {
            let i = choose|i: int| 0 <= i < tasks && #[trigger] slot_holds(slots[i], b);
            assert(i * s <= b < i * s + s);
            assert(0 <= i * s) by (nonlinear_arith)
                requires 0 <= i, s >= 0;
            assert(i * s + s <= tasks * s) by (nonlinear_arith)
                requires i < tasks, s >= 0;
        }
    }
}

} // verus!
