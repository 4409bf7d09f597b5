//! Index arithmetic of the single-producer single-consumer queue that
//! carries messages from the key-processing core to the admin core. The
//! producer owns `tail`, the consumer owns `head`; slot `tail` is written
//! before `tail` moves on, so one of the `n` slots always stays free.
use vstd::prelude::*;

verus! {

/// Queued items for cursors inside the ring.
pub open spec fn queued(head: int, tail: int, n: int) -> int {
    if head <= tail {
        tail - head
    } else {
        tail - head + n
    }
}

/// Items ready for the consumer: `(tail - head + n) mod n` in wrapping
/// `usize` arithmetic.
pub fn available(head: usize, tail: usize, n: usize) -> (r: usize)
    requires
        n > 0,
    ensures
        r == vstd::wrapping::usize_specs::wrapping_add(
            vstd::wrapping::usize_specs::wrapping_sub(tail, head),
            n,
        ) % n,
        head < n && tail < n && n <= usize::MAX / 2 ==> r == queued(head as int, tail as int, n as int),
{
    let r = tail.wrapping_sub(head).wrapping_add(n) % n;
    proof {
        if head < n && tail < n && n <= usize::MAX / 2 {
            if head <= tail {
                assert(vstd::wrapping::usize_specs::wrapping_sub(tail, head) == tail - head);
                assert((tail - head + n) % (n as int) == tail - head) by (nonlinear_arith)
                    requires
                        0 <= tail - head < n,
                ;
            } else {
                assert(vstd::wrapping::usize_specs::wrapping_sub(tail, head) == tail - head + usize::MAX + 1);
                assert(vstd::wrapping::usize_specs::wrapping_add(
                    vstd::wrapping::usize_specs::wrapping_sub(tail, head),
                    n,
                ) == tail - head + n);
                assert((tail - head + n) % (n as int) == tail - head + n) by (nonlinear_arith)
                    requires
                        0 <= tail - head + n < n,
                ;
            }
        }
    }
    r
}

/// The slot after `index`, wrapping at `n`.
pub fn next_index(index: usize, n: usize) -> (r: usize)
    requires
        n > 0,
        index < n,
    ensures
        r == (index + 1) % (n as int),
        r < n,
        r == (if index + 1 == n {
            0
        } else {
            index + 1
        }),
{
    let r = (index + 1) % n;
    proof {
        if index + 1 == n {
            assert((n as int) % (n as int) == 0) by (nonlinear_arith)
                requires
                    n > 0,
            ;
        } else {
            assert((index + 1) % (n as int) == index + 1) by (nonlinear_arith)
                requires
                    index + 1 < n,
            ;
        }
    }
    r
}

/// The producer's decision: the tail to publish after writing slot `tail`,
/// or `None` when that would make the queue look empty (it is full).
pub fn push_position(head: usize, tail: usize, n: usize) -> (r: Option<usize>)
    requires
        n > 0,
        head < n,
        tail < n,
    ensures
        r is None <==> queued(head as int, tail as int, n as int) == n - 1,
        r matches Some(next) ==> next < n && next == (if tail + 1 == n {
            0
        } else {
            tail + 1
        }) && queued(head as int, next as int, n as int) == queued(head as int, tail as int, n as int)
            + 1,
{
    let next = next_index(tail, n);
    if next == head {
        None
    } else {
        Some(next)
    }
}

/// The consumer's decision: the head to publish after reading slot
/// `head`, or `None` when the queue is empty.
pub fn pop_position(head: usize, tail: usize, n: usize) -> (r: Option<usize>)
    requires
        n > 0,
        head < n,
        tail < n,
    ensures
        r is None <==> queued(head as int, tail as int, n as int) == 0,
        r matches Some(next) ==> next < n && next == (if head + 1 == n {
            0
        } else {
            head + 1
        }) && queued(next as int, tail as int, n as int) == queued(head as int, tail as int, n as int)
            - 1,
{
    if head == tail {
        None
    } else {
        Some(next_index(head, n))
    }
}

/// The queue never holds more than `n - 1` items.
pub proof fn lemma_capacity(head: int, tail: int, n: int)
    requires
        0 <= head < n,
        0 <= tail < n,
    ensures
        0 <= queued(head, tail, n) <= n - 1,
{
}

/// An operation on the queue between the cores.
#[derive(Debug, Copy, Clone, PartialEq, Eq, Structural)]
pub enum QueueOp {
    Push,
    Pop,
}

/// The slot after `i` in a ring of `n` slots.
pub open spec fn next_slot(i: int, n: int) -> int {
    if i + 1 == n {
        0
    } else {
        i + 1
    }
}

/// The cursors and the number of items held after `ops`, run from an
/// empty queue of `n` slots: a push is refused when `n - 1` items are held
/// and a pop when none are, as `push_position` and `pop_position` decide.
pub open spec fn run_queue(n: int, ops: Seq<QueueOp>) -> (int, int, int)
    decreases ops.len(),
{
    if ops.len() == 0 {
        (0, 0, 0)
    } else {
        let (h, t, c) = run_queue(n, ops.drop_last());
        match ops.last() {
            QueueOp::Push => if queued(h, t, n) == n - 1 {
                (h, t, c)
            } else {
                (h, next_slot(t, n), c + 1)
            },
            QueueOp::Pop => if queued(h, t, n) == 0 {
                (h, t, c)
            } else {
                (next_slot(h, n), t, c - 1)
            },
        }
    }
}

/// Whatever pushes and pops ran on a fresh queue, what `available` reads
/// off the cursors is the number of items taken in and not yet taken out,
/// and at most `n - 1`.
pub proof fn lemma_available_counts_items(n: int, ops: Seq<QueueOp>)
    requires
        n >= 1,
    ensures
        ({
            let (h, t, c) = run_queue(n, ops);
            &&& 0 <= h < n
            &&& 0 <= t < n
            &&& queued(h, t, n) == c
            &&& 0 <= c <= n - 1
        }),
    decreases ops.len(),
{
    if ops.len() > 0 {
        lemma_available_counts_items(n, ops.drop_last());
    }
}

} // verus!
