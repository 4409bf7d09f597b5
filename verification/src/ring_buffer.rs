//! A fixed-capacity FIFO ring buffer.
use vstd::prelude::*;

verus! {

pub struct RingBuffer<T, const N: usize> {
    ring: Vec<Option<T>>,
    start: usize,
    filled: usize,
}

impl<T, const N: usize> View for RingBuffer<T, N> {
    type V = Seq<T>;

    open spec fn view(&self) -> Seq<T> {
        self.items()
    }
}

impl<T, const N: usize> RingBuffer<T, N> {
    /// Slot of the `i`-th item.
    closed spec fn slot(self, i: int) -> int {
        if self.start + i < N {
            self.start + i
        } else {
            self.start + i - N
        }
    }

    pub closed spec fn wf(self) -> bool {
        &&& N > 1
        &&& self.ring@.len() == N
        &&& self.start < N
        &&& self.filled <= N
        &&& forall|i: int| 0 <= i < self.filled ==> (#[trigger] self.ring@[self.slot(i)]) is Some
    }

    /// The buffered items, oldest first.
    pub closed spec fn items(self) -> Seq<T> {
        Seq::new(self.filled as nat, |i: int| self.ring@[self.slot(i)]->0)
    }

    /// An empty buffer; it needs at least two slots.
    pub fn new() -> (r: Self)
        requires
            N > 1,
        ensures
            r.wf(),
            r@ == Seq::<T>::empty(),
    {
        let mut ring: Vec<Option<T>> = Vec::new();
        let mut i: usize = 0;
        while i < N
            invariant
                i <= N,
                ring@.len() == i,
            decreases N - i,
        {
            ring.push(None);
            i = i + 1;
        }
        let r = RingBuffer { ring, start: 0, filled: 0 };
        assert(r@ =~= Seq::<T>::empty());
        r
    }

    fn has_slot(&self) -> (r: bool)
        requires
            self.wf(),
        ensures
            r == (self@.len() < N),
    {
        self.filled < N
    }

    /// Appends `val` unless all `N` slots are taken.
    pub fn try_push(&mut self, val: T) -> (r: bool)
        requires
            old(self).wf(),
        ensures
            final(self).wf(),
            r == (old(self)@.len() < N),
            r ==> final(self)@ == old(self)@.push(val),
            !r ==> final(self)@ == old(self)@,
    {
        if !self.has_slot() {
            return false;
        }
        let ghost old_self = *self;
        let offset = if self.filled >= N - self.start {
            self.filled - (N - self.start)
        } else {
            self.start + self.filled
        };
        self.ring.set(offset, Some(val));
        self.filled = self.filled + 1;
        proof {
            assert(old_self.slot(old_self.filled as int) == offset);
            assert forall|i: int| 0 <= i < self.filled implies (#[trigger] self.ring@[self.slot(
                i,
            )]) is Some by {
                if i < old_self.filled {
                    assert(self.slot(i) == old_self.slot(i));
                    assert(old_self.ring@[old_self.slot(i)] is Some);
                }
            }
            assert(self@ =~= old_self@.push(val));
        }
        true
    }

    /// Takes the oldest item, if any.
    pub fn try_pop(&mut self) -> (r: Option<T>)
        requires
            old(self).wf(),
        ensures
            final(self).wf(),
            r is Some <==> old(self)@.len() > 0,
            r matches Some(v) ==> v == old(self)@[0] && final(self)@ == old(self)@.drop_first(),
            r is None ==> final(self)@ == old(self)@,
    {
        if self.filled == 0 {
            return None;
        }
        let ghost old_self = *self;
        proof {
            assert(old_self.ring@[old_self.slot(0)] is Some);
        }
        let s = self.start;
        let res = self.ring[s].take();
        if s >= N - 1 {
            self.start = 0;
        } else {
            self.start = s + 1;
        }
        self.filled = self.filled - 1;
        proof {
            assert forall|i: int| 0 <= i < self.filled implies (#[trigger] self.ring@[self.slot(
                i,
            )]) is Some by {
                assert(self.slot(i) == old_self.slot(i + 1));
                assert(old_self.ring@[old_self.slot(i + 1)] is Some);
            }
            assert forall|i: int| 0 <= i < self.filled implies self@[i] == old_self@[i + 1] by {
                assert(self.slot(i) == old_self.slot(i + 1));
            }
            assert(self@ =~= old_self@.drop_first());
        }
        res
    }
}

impl<T: Copy, const N: usize> Clone for RingBuffer<T, N> {
    fn clone(&self) -> (r: Self)
        ensures
            self.wf() ==> r.wf(),
            r@ == self@,
    {
        let mut ring: Vec<Option<T>> = Vec::new();
        let mut i: usize = 0;
        while i < self.ring.len()
            invariant
                i <= self.ring@.len(),
                ring@ == self.ring@.subrange(0, i as int),
            decreases self.ring@.len() - i,
        {
            let v = self.ring[i];
            ring.push(v);
            i = i + 1;
        }
        assert(ring@ =~= self.ring@);
        let r = RingBuffer { ring, start: self.start, filled: self.filled };
        assert forall|i: int| 0 <= i < r.filled implies #[trigger] r.ring@[r.slot(i)] == self.ring@[self.slot(i)] by {}
        assert(r@ =~= self@);
        r
    }
}

} // verus!
