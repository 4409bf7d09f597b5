//! Bookkeeping of the cores' loops: the sleep countdown and the scan loop
//! counter.
use vstd::prelude::*;
use crate::time::{checked_duration_since, duration_since, micros_to_secs};

verus! {

/// Seconds without a key event before the display and LED go dark.
pub const SLEEP_AFTER_SECONDS: u64 = 60;

pub struct SleepView {
    pub is_asleep: bool,
    pub touched_last: u64,
}

/// Counts down to sleep from the last key event.
pub struct SleepCountdown {
    is_asleep: bool,
    touched_last: u64,
}

impl View for SleepCountdown {
    type V = SleepView;

    open spec fn view(&self) -> SleepView {
        self.sleep_view()
    }
}

/// Whether a countdown that is awake should fall asleep at `now`: more than
/// a minute, in whole seconds, since the last touch.
pub open spec fn sleep_due(s: SleepView, now: u64) -> bool {
    !s.is_asleep && match duration_since(now, s.touched_last) {
        Some(d) => d / 1_000_000 > SLEEP_AFTER_SECONDS,
        None => false,
    }
}

impl SleepCountdown {
    pub closed spec fn sleep_view(&self) -> SleepView {
        SleepView { is_asleep: self.is_asleep, touched_last: self.touched_last }
    }

    /// Awake, last touched at tick 0.
    pub fn new() -> (r: Self)
        ensures
            r@ == (SleepView { is_asleep: false, touched_last: 0 }),
    {
        SleepCountdown { is_asleep: false, touched_last: 0 }
    }

    /// A key event at `now` wakes it up and restarts the countdown.
    pub fn touch(&mut self, now: u64)
        ensures
            final(self)@ == (SleepView { is_asleep: false, touched_last: now }),
    {
        self.touched_last = now;
        self.is_asleep = false;
    }

    pub fn should_sleep(&mut self, now: u64) -> (r: bool)
        ensures
            final(self)@ == old(self)@,
            r == sleep_due(old(self)@, now),
    {
        if self.is_asleep {
            return false;
        }
        match checked_duration_since(now, self.touched_last) {
            Some(dur) => micros_to_secs(dur) > SLEEP_AFTER_SECONDS,
            None => false,
        }
    }

    pub fn set_sleeping(&mut self)
        ensures
            final(self)@ == (SleepView { is_asleep: true, ..old(self)@ }),
    {
        self.is_asleep = true;
    }

    pub fn is_awake(&self) -> (r: bool)
        ensures
            r == !self@.is_asleep,
    {
        !self.is_asleep
    }
}

/// Once asleep, the countdown asks for sleep no more until it is touched.
pub proof fn lemma_sleep_once(s: SleepView, now: u64)
    ensures
        !sleep_due(SleepView { is_asleep: true, ..s }, now),
{
}

/// Right after a touch, sleep is not due.
pub proof fn lemma_touch_wakes(s: SleepView, now: u64)
    ensures
        !sleep_due(SleepView { is_asleep: false, touched_last: now }, now),
{
}

/// Loops counted over a stretch of time.
#[derive(Copy, Clone, Debug)]
pub struct LoopCount {
    /// Microseconds the loops took.
    pub duration: u64,
    pub count: u32,
}

/// Stretch of time reported when the clock seems to have gone backwards.
pub const FALLBACK_LOOP_MICROS: u64 = 100;

pub struct LoopCounterView {
    pub start: u64,
    pub count: u32,
}

/// Counts scan loops; every `N` loops the count is reported.
pub struct LoopCounter<const N: u32> {
    start: u64,
    count: u32,
}

impl<const N: u32> View for LoopCounter<N> {
    type V = LoopCounterView;

    open spec fn view(&self) -> LoopCounterView {
        self.counter_view()
    }
}

impl<const N: u32> LoopCounter<N> {
    pub closed spec fn counter_view(&self) -> LoopCounterView {
        LoopCounterView { start: self.start, count: self.count }
    }

    pub fn new(instant: u64) -> (r: Self)
        ensures
            r@ == (LoopCounterView { start: instant, count: 0 }),
    {
        LoopCounter { start: instant, count: 0 }
    }

    /// Counts one loop; true once `N` loops are counted. The count must
    /// stay below `u32::MAX`: one more would overflow.
    pub fn increment(&mut self) -> (r: bool)
        requires
            old(self)@.count < u32::MAX,
        ensures
            final(self)@ == (LoopCounterView { count: (old(self)@.count + 1) as u32, ..old(self)@ }),
            r == (old(self)@.count + 1 >= N),
    {
        self.count = self.count + 1;
        self.count >= N
    }

    /// The loops counted since the start, up to `now`.
    pub fn value(&self, now: u64) -> (r: LoopCount)
        ensures
            r.count == self@.count,
            r.duration == (match duration_since(now, self@.start) {
                Some(d) => d,
                None => FALLBACK_LOOP_MICROS,
            }),
    {
        let duration = match checked_duration_since(now, self.start) {
            Some(d) => d,
            None => FALLBACK_LOOP_MICROS,
        };
        LoopCount { duration, count: self.count }
    }

    pub fn reset(&mut self, start: u64)
        ensures
            final(self)@ == (LoopCounterView { start, count: 0 }),
    {
        self.start = start;
        self.count = 0;
    }
}

} // verus!
