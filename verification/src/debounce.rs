//! Debouncing of a key's contact: state changes that follow the last
//! accepted one too closely are held back.
use vstd::prelude::*;
use crate::time::{checked_duration_since, duration_since, micros_to_millis};

verus! {

/// Within this many microseconds of the last accepted change, a change is
/// quarantined instead of accepted: at most one press per key every 20 ms.
pub const QUARANTINE_MICROS: u64 = 10_000;

/// The debouncer's state as values.
pub struct DebounceView {
    pub last_touch: Option<u64>,
    pub quarantined: Option<bool>,
}

/// What submitting `state` at `now` does: whether it is accepted, and the
/// debouncer after it.
pub open spec fn debounce_submit(d: DebounceView, now: u64, state: bool) -> (DebounceView, bool) {
    match d.last_touch {
        None => (DebounceView { last_touch: Some(now), ..d }, true),
        Some(earlier) => match duration_since(now, earlier) {
            None => (DebounceView { last_touch: Some(now), ..d }, true),
            Some(diff) => if diff < QUARANTINE_MICROS {
                if d.quarantined == Some(state) {
                    (d, false)
                } else {
                    (DebounceView { last_touch: Some(now), quarantined: Some(state) }, false)
                }
            } else {
                (DebounceView { last_touch: Some(now), quarantined: None }, true)
            },
        },
    }
}

#[derive(Copy, Clone, Debug)]
pub struct PinDebouncer {
    last_touch: Option<u64>,
    quarantined: Option<bool>,
}

impl View for PinDebouncer {
    type V = DebounceView;

    open spec fn view(&self) -> DebounceView {
        self.state_view()
    }
}

impl PinDebouncer {
    pub closed spec fn state_view(&self) -> DebounceView {
        DebounceView { last_touch: self.last_touch, quarantined: self.quarantined }
    }

    pub fn new() -> (r: Self)
        ensures
            r@ == (DebounceView { last_touch: None, quarantined: None }),
    {
        PinDebouncer { last_touch: None, quarantined: None }
    }

    /// Microseconds since the last accepted or quarantined change, if there
    /// was one and `now` is not before it.
    pub fn diff_last(&self, now: u64) -> (r: Option<u64>)
        ensures
            r == (match self@.last_touch {
                Some(last) => duration_since(now, last),
                None => None,
            }),
    {
        match self.last_touch {
            Some(last) => checked_duration_since(now, last),
            None => None,
        }
    }

    /// Submits the key's `state` read at `now`; true when the change is
    /// accepted.
    pub fn try_submit(&mut self, now: u64, state: bool) -> (r: bool)
        ensures
            (final(self)@, r) == debounce_submit(old(self)@, now, state),
    {
        let earlier = match self.last_touch {
            Some(e) => e,
            None => {
                self.last_touch = Some(now);
                return true;
            },
        };
        let diff = match checked_duration_since(now, earlier) {
            Some(d) => d,
            None => {
                self.last_touch = Some(now);
                return true;
            },
        };
        if diff < QUARANTINE_MICROS {
            return if self.quarantined == Some(state) {
                false
            } else {
                self.quarantined = Some(state);
                self.last_touch = Some(now);
                false
            };
        }
        self.last_touch = Some(now);
        self.quarantined = None;
        true
    }
}

/// What submitting `state` at `now` to a [`JitterRegulator`] does.
pub open spec fn jitter_submit(d: DebounceView, now: u64, state: bool) -> (DebounceView, bool) {
    match d.last_touch {
        None => (DebounceView { last_touch: Some(now), ..d }, true),
        Some(earlier) => match duration_since(now, earlier) {
            None => (DebounceView { last_touch: Some(now), ..d }, true),
            Some(diff) => if diff < QUARANTINE_MICROS {
                (DebounceView { last_touch: Some(now), quarantined: Some(state) }, false)
            } else {
                (DebounceView { last_touch: Some(now), quarantined: None }, true)
            },
        },
    }
}

/// What asking a [`JitterRegulator`] to release its quarantined state at
/// `now` gives.
pub open spec fn jitter_release(d: DebounceView, now: u64) -> (DebounceView, Option<bool>) {
    match (d.quarantined, d.last_touch) {
        (Some(q), Some(last)) => match duration_since(now, last) {
            Some(diff) => if diff / 1000 < 10_000 {
                (d, None)
            } else {
                (DebounceView { quarantined: None, ..d }, Some(q))
            },
            None => (d, None),
        },
        _ => (d, None),
    }
}

/// A debouncer that quarantines the latest early change and can release it
/// later.
#[derive(Copy, Clone, Debug)]
pub struct JitterRegulator {
    last_touch: Option<u64>,
    quarantined: Option<bool>,
}

impl View for JitterRegulator {
    type V = DebounceView;

    open spec fn view(&self) -> DebounceView {
        self.state_view()
    }
}

impl JitterRegulator {
    pub closed spec fn state_view(&self) -> DebounceView {
        DebounceView { last_touch: self.last_touch, quarantined: self.quarantined }
    }

    pub fn new() -> (r: Self)
        ensures
            r@ == (DebounceView { last_touch: None, quarantined: None }),
    {
        JitterRegulator { last_touch: None, quarantined: None }
    }

    pub fn try_submit(&mut self, now: u64, state: bool) -> (r: bool)
        ensures
            (final(self)@, r) == jitter_submit(old(self)@, now, state),
    {
        let earlier = match self.last_touch {
            Some(e) => e,
            None => {
                self.last_touch = Some(now);
                return true;
            },
        };
        self.last_touch = Some(now);
        let diff = match checked_duration_since(now, earlier) {
            Some(d) => d,
            None => {
                return true;
            },
        };
        if diff < QUARANTINE_MICROS {
            self.quarantined = Some(state);
            return false;
        }
        self.quarantined = None;
        true
    }

    /// The quarantined state, once the last change is old enough (the
    /// threshold is 10 000 whole milliseconds).
    pub fn try_release_quarantined(&mut self, now: u64) -> (r: Option<bool>)
        ensures
            (final(self)@, r) == jitter_release(old(self)@, now),
    {
        let q = match self.quarantined {
            Some(q) => q,
            None => {
                return None;
            },
        };
        let last = match self.last_touch {
            Some(l) => l,
            None => {
                return None;
            },
        };
        let diff = match checked_duration_since(now, last) {
            Some(d) => d,
            None => {
                return None;
            },
        };
        if micros_to_millis(diff) < 10_000 {
            return None;
        }
        self.quarantined = None;
        Some(q)
    }
}

/// After a change is accepted, another change within the quarantine window
/// is not accepted.
pub proof fn lemma_debounce_quarantines(d: DebounceView, t1: u64, s1: bool, t2: u64, s2: bool)
    requires
        debounce_submit(d, t1, s1).1,
        duration_since(t2, t1) matches Some(diff) && diff < QUARANTINE_MICROS,
    ensures
        !debounce_submit(debounce_submit(d, t1, s1).0, t2, s2).1,
{
}

/// A change submitted at least the quarantine window after the last one is
/// accepted.
pub proof fn lemma_debounce_accepts_late(d: DebounceView, now: u64, state: bool)
    requires
        d.last_touch matches Some(last) && (duration_since(now, last) matches Some(diff)
            && diff >= QUARANTINE_MICROS),
    ensures
        debounce_submit(d, now, state).1,
        debounce_submit(d, now, state).0 == (DebounceView { last_touch: Some(now), quarantined: None }),
{
}

/// A debouncer after the key's readings `events` (time, state), submitted
/// in order.
pub open spec fn debounce_state_after(d: DebounceView, events: Seq<(u64, bool)>) -> DebounceView
    decreases events.len(),
{
    if events.len() == 0 {
        d
    } else {
        debounce_submit(debounce_state_after(d, events.drop_last()), events.last().0, events.last().1).0
    }
}

/// The times of the readings that were accepted, in order.
pub open spec fn accepted_times(d: DebounceView, events: Seq<(u64, bool)>) -> Seq<u64>
    decreases events.len(),
{
    if events.len() == 0 {
        Seq::empty()
    } else {
        let prev = accepted_times(d, events.drop_last());
        if debounce_submit(debounce_state_after(d, events.drop_last()), events.last().0, events.last().1).1 {
            prev.push(events.last().0)
        } else {
            prev
        }
    }
}

/// Readings in time order, all within half the timer's range.
pub open spec fn in_time_order(events: Seq<(u64, bool)>) -> bool {
    &&& forall|i: int, j: int| 0 <= i <= j < events.len() ==> events[i].0 <= events[j].0
    &&& events.len() > 0 ==> events.last().0 - events[0].0 <= u64::MAX / 2
}

proof fn lemma_accepted_apart_inner(events: Seq<(u64, bool)>)
    requires
        events.len() > 0,
        in_time_order(events),
    ensures
        ({
            let d0 = DebounceView { last_touch: None, quarantined: None };
            let st = debounce_state_after(d0, events);
            let acc = accepted_times(d0, events);
            &&& st.last_touch matches Some(t) && events[0].0 <= t <= events.last().0 && acc.last() <= t
            &&& acc.len() > 0
            &&& acc[0] == events[0].0
            &&& forall|i: int| 0 < i < acc.len() ==> #[trigger] acc[i] - acc[i - 1] >= QUARANTINE_MICROS
        }),
    decreases events.len(),
{
    let d0 = DebounceView { last_touch: None, quarantined: None };
    let prev = events.drop_last();
    if prev.len() == 0 {
        assert(debounce_state_after(d0, prev) == d0);
        assert(accepted_times(d0, prev) =~= Seq::<u64>::empty());
        assert(accepted_times(d0, events) =~= seq![events.last().0]);
    } else {
        assert forall|i: int, j: int| 0 <= i <= j < prev.len() implies prev[i].0 <= prev[j].0 by {
            assert(events[i].0 <= events[j].0);
        }
        assert(prev.last().0 - prev[0].0 <= u64::MAX / 2) by {
            assert(events[prev.len() - 1].0 <= events.last().0);
        }
        lemma_accepted_apart_inner(prev);
        assert(prev.last().0 <= events.last().0) by {
            assert(events[prev.len() - 1].0 <= events[events.len() - 1].0);
        }
        let acc = accepted_times(d0, prev);
        let now = events.last().0;
        let acc2 = accepted_times(d0, events);
        if debounce_submit(debounce_state_after(d0, prev), now, events.last().1).1 {
            assert(acc2 == acc.push(now));
            assert forall|i: int| 0 < i < acc2.len() implies #[trigger] acc2[i] - acc2[i - 1] >= QUARANTINE_MICROS by {
                if i < acc.len() {
                    assert(acc2[i] == acc[i] && acc2[i - 1] == acc[i - 1]);
                }
            }
        }
    }
}

/// Readings in time order give accepted changes at least the quarantine
/// window apart, the first reading being accepted: a key changes state at
/// most once per 10 ms, so it is pressed at most once per 20 ms.
pub proof fn lemma_accepted_changes_apart(events: Seq<(u64, bool)>)
    requires
        in_time_order(events),
    ensures
        ({
            let acc = accepted_times(DebounceView { last_touch: None, quarantined: None }, events);
            &&& events.len() > 0 ==> acc.len() > 0 && acc[0] == events[0].0
            &&& forall|i: int| 0 < i < acc.len() ==> #[trigger] acc[i] - acc[i - 1] >= QUARANTINE_MICROS
        }),
{
    let d0 = DebounceView { last_touch: None, quarantined: None };
    if events.len() > 0 {
        lemma_accepted_apart_inner(events);
    } else {
        assert(accepted_times(d0, events) =~= Seq::<u64>::empty());
    }
}

} // verus!
