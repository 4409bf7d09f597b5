//! Microsecond timer instants and durations, as the rp2040 timer counts them.
use vstd::prelude::*;

verus! {

/// How long after `earlier` the instant `now` is, in microseconds, when
/// `now` is not before `earlier`. The timer's 64-bit tick count may wrap:
/// `now` counts as not before `earlier` when the wrapping difference is at
/// most half the tick range.
pub open spec fn duration_since(now: u64, earlier: u64) -> Option<u64> {
    let d = if now >= earlier {
        (now - earlier) as u64
    } else {
        (now + (u64::MAX - earlier) + 1) as u64
    };
    if d <= u64::MAX / 2 {
        Some(d)
    } else {
        None
    }
}

/// `Instant::checked_duration_since` of rp2040-hal's timer instants (fugit
/// `TimerInstantU64<1_000_000>`): the wrapping difference of the tick
/// counts when `now` is not before `earlier`, in microsecond ticks.
#[verifier::external_body]
pub(crate) fn checked_duration_since(now: u64, earlier: u64) -> (r: Option<u64>)
    ensures
        r == duration_since(now, earlier),
{
    rp2040_hal::timer::Instant::from_ticks(now).checked_duration_since(
        rp2040_hal::timer::Instant::from_ticks(earlier),
    ).map(|d| d.ticks())
}

/// `Duration::to_millis` of a fugit microsecond duration: whole
/// milliseconds, rounded down.
#[verifier::external_body]
pub(crate) fn micros_to_millis(micros: u64) -> (r: u64)
    ensures
        r == micros / 1000,
{
    rp2040_hal::fugit::MicrosDurationU64::from_ticks(micros).to_millis()
}

/// `Duration::to_secs` of a fugit microsecond duration: whole seconds,
/// rounded down.
#[verifier::external_body]
pub(crate) fn micros_to_secs(micros: u64) -> (r: u64)
    ensures
        r == micros / 1_000_000,
{
    rp2040_hal::fugit::MicrosDurationU64::from_ticks(micros).to_secs()
}

/// `Duration::to_nanos` of a fugit microsecond duration: the ticks times a
/// thousand. Larger durations overflow the `u64`.
#[verifier::external_body]
pub(crate) fn micros_to_nanos(micros: u64) -> (r: u64)
    requires
        micros <= u64::MAX / 1000,
    ensures
        r == micros * 1000,
{
    rp2040_hal::fugit::MicrosDurationU64::from_ticks(micros).to_nanos()
}

/// Whether at least `nanos` nanoseconds have passed from `start` to `now`;
/// never while `now` reads as before `start`. The elapsed time must fit in
/// nanoseconds in a `u64`.
pub fn waited_nanos(start: u64, now: u64, nanos: u64) -> (r: bool)
    requires
        duration_since(now, start) matches Some(d) ==> d <= u64::MAX / 1000,
    ensures
        r == (match duration_since(now, start) {
            Some(d) => d * 1000 >= nanos,
            None => false,
        }),
{
    match checked_duration_since(now, start) {
        Some(dur) => micros_to_nanos(dur) >= nanos,
        None => false,
    }
}

} // verus!
