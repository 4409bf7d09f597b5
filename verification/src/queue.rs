//! A fixed-capacity FIFO queue over a ring of `N` slots, and the index
//! arithmetic of the single-producer single-consumer queue shared between
//! the two cores.
use vstd::prelude::*;

verus! {

/// What a push leaves in a queue of capacity `cap` that holds `items` with
/// its front at slot `start`.
///
/// A full queue is left alone. The push that fills the last free slot while
/// the front is not at slot 0 closes the ring on itself, after which the
/// queue reads as empty: the pushed item and all that were queued are lost.
pub open spec fn pushed<T>(items: Seq<T>, start: nat, cap: nat, v: T) -> Seq<T> {
    if items.len() >= cap {
        items
    } else if items.len() + 1 == cap && start != 0 {
        Seq::empty()
    } else {
        items.push(v)
    }
}

/// The slot after `start` in a ring of `cap` slots.
pub open spec fn next_start(start: nat, cap: nat) -> nat {
    if start + 1 >= cap {
        0
    } else {
        (start + 1) as nat
    }
}

pub struct Queue<T, const N: usize> {
    buffer: Vec<Option<T>>,
    head: usize,
    tail: usize,
}

impl<T, const N: usize> View for Queue<T, N> {
    type V = Seq<T>;

    open spec fn view(&self) -> Seq<T> {
        self.items()
    }
}

impl<T, const N: usize> Queue<T, N> {
    /// Number of queued items, from the two cursors.
    closed spec fn count(self) -> nat {
        if self.head <= self.tail {
            (self.tail - self.head) as nat
        } else {
            (N - self.head + self.tail) as nat
        }
    }

    /// Slot of the `i`-th queued item.
    closed spec fn slot(self, i: int) -> int {
        if self.head + i < N {
            self.head + i
        } else {
            self.head + i - N
        }
    }

    pub closed spec fn wf(self) -> bool {
        &&& self.buffer@.len() == N
        &&& self.tail <= N
        &&& if N == 0 {
            self.head == 0 && self.tail == 0
        } else {
            self.head < N
        }
        &&& forall|i: int| 0 <= i < self.count() ==> (#[trigger] self.buffer@[self.slot(i)]) is Some
    }

    /// The queued items, front first.
    pub closed spec fn items(self) -> Seq<T> {
        Seq::new(self.count(), |i: int| self.buffer@[self.slot(i)]->0)
    }

    /// Slot of the front item; it moves only when an item is taken.
    pub closed spec fn start(self) -> nat {
        self.head as nat
    }

    pub fn new() -> (r: Self)
        ensures
            r.wf(),
            r@ == Seq::<T>::empty(),
            r.start() == 0,
    {
        let mut buffer: Vec<Option<T>> = Vec::new();
        let mut i: usize = 0;
        while i < N
            invariant
                i <= N,
                buffer@.len() == i,
            decreases N - i,
        {
            buffer.push(None);
            i = i + 1;
        }
        let r = Queue { buffer, head: 0, tail: 0 };
        assert(r@ =~= Seq::<T>::empty());
        r
    }

    /// Free slots.
    fn rem(&self) -> (r: usize)
        requires
            self.wf(),
        ensures
            r == N - self@.len(),
    {
        if self.head > self.tail {
            self.head - self.tail
        } else {
            N - self.tail + self.head
        }
    }

    /// Appends `val` unless the queue is full; see [`pushed`] for the push
    /// that fills the ring while its front is not at slot 0.
    pub fn push_back(&mut self, val: T) -> (r: bool)
        requires
            old(self).wf(),
        ensures
            final(self).wf(),
            r == (old(self)@.len() < N),
            final(self)@ == pushed(old(self)@, old(self).start(), N as nat, val),
            final(self).start() == old(self).start(),
    {
        if self.rem() == 0 {
            return false;
        }
        let ghost old_self = *self;
        if self.tail == N {
            self.tail = 0;
        }
        let t = self.tail;
        self.buffer.set(t, Some(val));
        self.tail = t + 1;
        proof {
            let n = old_self.count();
            if n + 1 == N && old_self.head != 0 {
                assert(self.count() == 0);
                assert(self@ =~= Seq::<T>::empty());
            } else {
                assert(self.count() == n + 1);
                assert(old_self.slot(n as int) == t);
                assert forall|i: int| 0 <= i < self.count() implies (#[trigger] self.buffer@[self.slot(
                    i,
                )]) is Some by {
                    if i < n {
                        assert(self.slot(i) == old_self.slot(i));
                        assert(old_self.buffer@[old_self.slot(i)] is Some);
                    }
                }
                assert(self@ =~= old_self@.push(val));
            }
        }
        true
    }

    /// The front item, if any.
    pub fn peek(&self) -> (r: Option<&T>)
        requires
            self.wf(),
        ensures
            r is Some <==> self@.len() > 0,
            r matches Some(v) ==> *v == self@[0],
    {
        if self.head == self.tail {
            return None;
        }
        proof {
            assert(self.buffer@[self.slot(0)] is Some);
        }
        match &self.buffer[self.head] {
            Some(v) => Some(v),
            None => None,
        }
    }

    /// Takes the front item, if any.
    pub fn pop_front(&mut self) -> (r: Option<T>)
        requires
            old(self).wf(),
        ensures
            final(self).wf(),
            r is Some <==> old(self)@.len() > 0,
            r matches Some(v) ==> v == old(self)@[0] && final(self)@ == old(
                self,
            )@.drop_first() && final(self).start() == next_start(old(self).start(), N as nat),
            r is None ==> final(self)@ == old(self)@ && final(self).start() == old(
                self,
            ).start(),
    {
        if self.head == self.tail {
            return None;
        }
        let ghost old_self = *self;
        proof {
            assert(old_self.buffer@[old_self.slot(0)] is Some);
        }
        let h = self.head;
        let val = self.buffer[h].take();
        if h >= N - 1 {
            self.head = 0;
            if self.tail == N {
                self.tail = 0;
            }
        } else {
            self.head = h + 1;
        }
        proof {
            let n = old_self.count();
            assert(self.count() == n - 1);
            assert forall|i: int| 0 <= i < self.count() implies (#[trigger] self.buffer@[self.slot(
                i,
            )]) is Some by {
                assert(self.slot(i) == old_self.slot(i + 1));
                assert(old_self.buffer@[old_self.slot(i + 1)] is Some);
            }
            assert forall|i: int| 0 <= i < self.count() implies self@[i] == old_self@[i
                + 1] by {
                assert(self.slot(i) == old_self.slot(i + 1));
            }
            assert(self@ =~= old_self@.drop_first());
        }
        val
    }
}

/// First in, first out: while the ring does not fill up, each push goes to
/// the back, so what was queued first comes out first.
pub proof fn lemma_push_with_room<T>(items: Seq<T>, start: nat, cap: nat, v: T)
    requires
        items.len() + 2 <= cap || (items.len() + 1 == cap && start == 0),
    ensures
        pushed(items, start, cap, v) == items.push(v),
        pushed(items, start, cap, v)[0] == (if items.len() == 0 { v } else { items[0] }),
{
}

} // verus!
