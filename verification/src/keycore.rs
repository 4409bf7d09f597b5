//! The bookkeeping of a key-processing core between its scans: the bytes
//! counted since the admin core last heard of them, the scan loops counted,
//! and the key-event latencies to report. The queue to the admin core may
//! refuse a message; a count starts over only once its message was taken.
use vstd::prelude::*;
use crate::admin::{KeycoreToAdminMessage, RightKeycoreToAdminMessage};
use crate::runtime::{LoopCount, LoopCounter, LoopCounterView};
use crate::time::{checked_duration_since, duration_since};

verus! {

pub struct TallyView {
    /// Bytes received or sent and not yet reported.
    pub pending: u16,
    pub loops: LoopCounterView,
}

/// A call that changes the byte count of a tally: `add_bytes` with its
/// argument, or `pending_taken` once the admin core took what
/// `pending_report` offered.
pub enum TallyOp {
    Add(u16),
    Taken,
}

/// The tally after one call.
pub open spec fn tally_step(v: TallyView, op: TallyOp) -> TallyView {
    match op {
        TallyOp::Add(b) => TallyView { pending: (v.pending + b) as u16, ..v },
        TallyOp::Taken => TallyView { pending: 0, ..v },
    }
}

/// The tally after the calls `ops`, made in order from `v`.
pub open spec fn tally_run(v: TallyView, ops: Seq<TallyOp>) -> TallyView
    decreases ops.len(),
{
    if ops.len() == 0 {
        v
    } else {
        tally_step(tally_run(v, ops.drop_last()), ops.last())
    }
}

/// Every `add_bytes` of the calls `ops` made from `v` meets its `requires`:
/// the count fits its `u16`.
pub open spec fn run_fits(v: TallyView, ops: Seq<TallyOp>) -> bool
    decreases ops.len(),
{
    ops.len() == 0 || (run_fits(v, ops.drop_last()) && match ops.last() {
        TallyOp::Add(b) => tally_run(v, ops.drop_last()).pending + b <= u16::MAX,
        TallyOp::Taken => true,
    })
}

/// The bytes that the calls `ops` count.
pub open spec fn bytes_added(ops: Seq<TallyOp>) -> int
    decreases ops.len(),
{
    if ops.len() == 0 {
        0
    } else {
        bytes_added(ops.drop_last()) + match ops.last() {
            TallyOp::Add(b) => b as int,
            TallyOp::Taken => 0,
        }
    }
}

/// The bytes that the admin core took along the calls `ops` made from `v`:
/// at each `Taken`, the count that `pending_report` had offered.
pub open spec fn bytes_reported(v: TallyView, ops: Seq<TallyOp>) -> int
    decreases ops.len(),
{
    if ops.len() == 0 {
        0
    } else {
        bytes_reported(v, ops.drop_last()) + match ops.last() {
            TallyOp::Add(_) => 0,
            TallyOp::Taken => tally_run(v, ops.drop_last()).pending as int,
        }
    }
}

/// No byte is lost or counted twice: along any calls of `add_bytes` and
/// `pending_taken`, the bytes still pending and those the admin core took
/// add up to the bytes pending at the start and those counted since.
pub proof fn lemma_pending_bytes_conserved(v: TallyView, ops: Seq<TallyOp>)
    requires
        run_fits(v, ops),
    ensures
        tally_run(v, ops).pending + bytes_reported(v, ops) == v.pending + bytes_added(ops),
        tally_run(v, ops).loops == v.loops,
    decreases ops.len(),
{
    if ops.len() > 0 {
        lemma_pending_bytes_conserved(v, ops.drop_last());
    }
}

/// What a key-processing core counts until the admin core takes it.
pub struct KeycoreTally<const N: u32> {
    pending: u16,
    loops: LoopCounter<N>,
}

impl<const N: u32> View for KeycoreTally<N> {
    type V = TallyView;

    open spec fn view(&self) -> TallyView {
        self.tally_view()
    }
}

impl<const N: u32> KeycoreTally<N> {
    pub closed spec fn tally_view(&self) -> TallyView {
        TallyView { pending: self.pending, loops: self.loops@ }
    }

    /// Nothing pending; loops counted from `now`.
    pub fn new(now: u64) -> (r: Self)
        ensures
            r@ == (TallyView { pending: 0, loops: LoopCounterView { start: now, count: 0 } }),
    {
        KeycoreTally { pending: 0, loops: LoopCounter::new(now) }
    }

    /// Counts `bytes` more bytes received or sent. The count must fit its
    /// `u16`.
    pub fn add_bytes(&mut self, bytes: u16)
        requires
            old(self)@.pending + bytes <= u16::MAX,
        ensures
            final(self)@ == (TallyView { pending: (old(self)@.pending + bytes) as u16, ..old(self)@ }),
            final(self)@ == tally_step(old(self)@, TallyOp::Add(bytes)),
    {
        self.pending = self.pending + bytes;
    }

    /// The bytes pending, to be offered to the admin core; none when there
    /// are none.
    pub fn pending_report(&self) -> (r: Option<u16>)
        ensures
            r == (if self@.pending > 0 {
                Some(self@.pending)
            } else {
                None
            }),
    {
        if self.pending > 0 {
            Some(self.pending)
        } else {
            None
        }
    }

    /// The scan loops counted so far.
    pub fn loops_counted(&self) -> (r: u32)
        ensures
            r == self@.loops.count,
    {
        self.loops.value(0).count
    }

    /// The admin core took the pending count: it starts over.
    pub fn pending_taken(&mut self)
        ensures
            final(self)@ == (TallyView { pending: 0, ..old(self)@ }),
            final(self)@ == tally_step(old(self)@, TallyOp::Taken),
    {
        self.pending = 0;
    }

    /// Counts one scan loop, ended at `now`; once `N` are counted, the count
    /// over the stretch since the start is to be offered to the admin core.
    /// The count must stay below `u32::MAX`.
    pub fn count_loop(&mut self, now: u64) -> (r: Option<LoopCount>)
        requires
            old(self)@.loops.count < u32::MAX,
        ensures
            final(self)@ == (TallyView {
                loops: LoopCounterView { count: (old(self)@.loops.count + 1) as u32, ..old(self)@.loops },
                ..old(self)@
            }),
            r is Some <==> old(self)@.loops.count + 1 >= N,
            r matches Some(lc) ==> lc.count == old(self)@.loops.count + 1 && lc.duration == (match duration_since(
                now,
                old(self)@.loops.start,
            ) {
                Some(d) => d,
                None => crate::runtime::FALLBACK_LOOP_MICROS,
            }),
    {
        if self.loops.increment() {
            Some(self.loops.value(now))
        } else {
            None
        }
    }

    /// The admin core took the loop count: counting starts over at `now`.
    pub fn loops_taken(&mut self, now: u64)
        ensures
            final(self)@ == (TallyView { loops: LoopCounterView { start: now, count: 0 }, ..old(self)@ }),
    {
        self.loops.reset(now);
    }
}

/// The latency messages of a left scan loop that started at `loop_start`
/// and ended at `now`: one for a left key event and one for a right key
/// event, each with the loop's duration; none when `now` reads as before
/// the start.
pub open spec fn touch_messages_spec(loop_start: u64, now: u64, changed_left: bool, changed_right: bool) -> Seq<
    KeycoreToAdminMessage,
> {
    match duration_since(now, loop_start) {
        Some(d) => (if changed_left {
            seq![KeycoreToAdminMessage::TouchLeft(d)]
        } else {
            Seq::empty()
        }) + (if changed_right {
            seq![KeycoreToAdminMessage::TouchRight(d)]
        } else {
            Seq::empty()
        }),
        None => Seq::empty(),
    }
}

/// The latency messages to offer at the end of a left scan loop.
pub fn touch_messages(loop_start: u64, now: u64, changed_left: bool, changed_right: bool) -> (r: Vec<
    KeycoreToAdminMessage,
>)
    ensures
        r@ == touch_messages_spec(loop_start, now, changed_left, changed_right),
{
    let mut r: Vec<KeycoreToAdminMessage> = Vec::new();
    match checked_duration_since(now, loop_start) {
        Some(d) => {
            if changed_left {
                r.push(KeycoreToAdminMessage::TouchLeft(d));
            }
            if changed_right {
                r.push(KeycoreToAdminMessage::TouchRight(d));
            }
        },
        None => {},
    }
    assert(r@ =~= touch_messages_spec(loop_start, now, changed_left, changed_right));
    r
}

/// The message of a right scan loop that sent `tx_bytes` bytes, started at
/// `loop_start` and ended at `now`; the duration counts as zero when `now`
/// reads as before the start.
pub fn right_touch_message(tx_bytes: u16, loop_start: u64, now: u64) -> (r: RightKeycoreToAdminMessage)
    ensures
        r == (RightKeycoreToAdminMessage::Touch {
            tx_bytes,
            loop_duration: match duration_since(now, loop_start) {
                Some(d) => d,
                None => 0,
            },
        }),
{
    let loop_duration = match checked_duration_since(now, loop_start) {
        Some(d) => d,
        None => 0,
    };
    RightKeycoreToAdminMessage::Touch { tx_bytes, loop_duration }
}

} // verus!
