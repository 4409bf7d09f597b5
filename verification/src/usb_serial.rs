//! Writing a buffer out over the USB serial port: in chunks of sixteen
//! bytes, each written again from where a short write stopped.
use vstd::prelude::*;

verus! {

/// Bytes handed to the port at most per write.
pub const SERIAL_CHUNK: usize = 16;

/// What one write to the port did.
#[derive(Debug, Copy, Clone, PartialEq, Eq, Structural)]
pub enum WriteOutcome {
    /// The port took this many bytes from the front of what it was given.
    Wrote(usize),
    /// The port had no room; the same bytes are to be written again.
    WouldBlock,
    /// Any other error: the rest of the buffer is dropped.
    Failed,
}

/// Where the chunk that holds position `pos` of a `len`-byte buffer ends.
pub open spec fn chunk_end(len: nat, pos: nat) -> nat {
    let end = (pos / 16 + 1) * 16;
    if end <= len {
        end
    } else {
        len
    }
}

pub struct SerialWriteView {
    pub len: nat,
    pub pos: nat,
}

/// How far a buffer of `len` bytes has been written.
pub struct SerialWrite {
    len: usize,
    pos: usize,
}

impl View for SerialWrite {
    type V = SerialWriteView;

    open spec fn view(&self) -> SerialWriteView {
        self.write_view()
    }
}

impl SerialWrite {
    pub closed spec fn write_view(&self) -> SerialWriteView {
        SerialWriteView { len: self.len as nat, pos: self.pos as nat }
    }

    pub closed spec fn wf(&self) -> bool {
        self.pos <= self.len
    }

    /// Nothing of a `len`-byte buffer written yet.
    pub fn new(len: usize) -> (r: Self)
        ensures
            r.wf(),
            r@ == (SerialWriteView { len: len as nat, pos: 0 }),
    {
        SerialWrite { len, pos: 0 }
    }

    /// The bytes `start..end` to write next, the rest of the current chunk;
    /// none once all is written.
    pub fn next_window(&self) -> (r: Option<(usize, usize)>)
        requires
            self.wf(),
        ensures
            match r {
                Some((start, end)) => self@.pos < self@.len && start == self@.pos && end == chunk_end(
                    self@.len,
                    self@.pos,
                ),
                None => self@.pos == self@.len,
            },
    {
        if self.pos >= self.len {
            return None;
        }
        let chunk = self.pos / SERIAL_CHUNK;
        let end = if chunk < self.len / SERIAL_CHUNK {
            (chunk + 1) * SERIAL_CHUNK
        } else {
            self.len
        };
        assert(end == chunk_end(self.len as nat, self.pos as nat)) by (nonlinear_arith)
            requires
                chunk == self.pos / 16,
                self.pos < self.len,
                end == if chunk < self.len / 16 { (chunk + 1) * 16 } else { self.len as int },
        ;
        Some((self.pos, end))
    }

    /// Takes in what the write of the current window did; false when the
    /// writing stops for an error. A write takes no more than its window.
    pub fn advance(&mut self, outcome: WriteOutcome) -> (r: bool)
        requires
            old(self).wf(),
            old(self)@.pos < old(self)@.len,
            outcome matches WriteOutcome::Wrote(n) ==> old(self)@.pos + n <= chunk_end(
                old(self)@.len,
                old(self)@.pos,
            ),
        ensures
            final(self).wf(),
            final(self)@.len == old(self)@.len,
            r == !(outcome is Failed),
            final(self)@.pos == (match outcome {
                WriteOutcome::Wrote(n) => old(self)@.pos + n,
                _ => old(self)@.pos as int,
            }),
    {
        match outcome {
            WriteOutcome::Wrote(n) => {
                self.pos = self.pos + n;
                true
            },
            WriteOutcome::WouldBlock => true,
            WriteOutcome::Failed => false,
        }
    }
}

/// A window never reaches past its chunk of sixteen bytes, nor past the
/// buffer, and never is empty.
pub proof fn lemma_window_in_chunk(len: nat, pos: nat)
    requires
        pos < len,
    ensures
        pos < chunk_end(len, pos) <= len,
        chunk_end(len, pos) - pos <= 16,
        chunk_end(len, pos) <= (pos / 16 + 1) * 16,
{
    assert(pos < (pos / 16 + 1) * 16) by (nonlinear_arith);
    assert((pos / 16 + 1) * 16 - pos <= 16) by (nonlinear_arith);
}

} // verus!
