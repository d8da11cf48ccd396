//! Seconds left until the next occurrence of a periodic event.

use vstd::prelude::*;
use crate::clock::unix_now;
use crate::event::EventType;

verus! {

/// Seconds from `ts` to the next occurrence of something that happened at
/// `epoch` and repeats every `interval` seconds. An occurrence at `ts` itself
/// counts as just past: the answer is then the whole interval.
pub open spec fn remaining(epoch: int, interval: int, ts: int) -> int {
    interval - (ts - epoch) % interval
}

/// Seconds from `ts` to the next occurrence of `ev`.
pub open spec fn delta_of(ev: EventType, ts: int) -> int {
    remaining(ev.epoch() as int, ev.interval() as int, ts)
}

/// Why a countdown could not be computed.
#[derive(Clone, Copy, Debug, PartialEq, Eq, Structural)]
pub enum DeltaError {
    /// The system clock gave no time at or after the unix epoch.
    ClockUnavailable,
    /// The timestamp lies before the event's epoch.
    BeforeEpoch,
}

/// What a countdown for `ev` comes to, given what the clock said: `None`
/// where it gave no time, else the unix timestamp in seconds.
pub open spec fn outcome(ev: EventType, reading: Option<u64>) -> Result<u64, DeltaError> {
    match reading {
        None => Err(DeltaError::ClockUnavailable),
        Some(t) => if t < ev.epoch() {
            Err(DeltaError::BeforeEpoch)
        } else {
            Ok(delta_of(ev, t as int) as u64)
        },
    }
}

/// The remaining time is positive and at most one interval.
pub proof fn lemma_remaining_bounds(epoch: int, interval: int, ts: int)
    requires
        interval > 0,
        ts >= epoch,
    ensures
        0 < remaining(epoch, interval, ts) <= interval,
{
    vstd::arithmetic::div_mod::lemma_mod_bound(ts - epoch, interval);
}

/// The remaining time repeats with the interval: one interval later it is
/// the same again.
pub proof fn lemma_remaining_periodic(epoch: int, interval: int, ts: int)
    requires
        interval > 0,
        ts >= epoch,
    ensures
        remaining(epoch, interval, ts + interval) == remaining(epoch, interval, ts),
{
    vstd::arithmetic::div_mod::lemma_mod_add_multiples_vanish(ts - epoch, interval);
    assert(ts + interval - epoch == interval + (ts - epoch));
}

/// An event's countdown is positive and at most the event's interval.
pub proof fn lemma_delta_bounds(ev: EventType, ts: int)
    requires
        ts >= ev.epoch(),
    ensures
        0 < delta_of(ev, ts) <= ev.interval(),
{
    lemma_remaining_bounds(ev.epoch() as int, ev.interval() as int, ts);
}

/// An event's countdown is periodic: at `ts` and one interval after `ts`
/// it is the same.
pub proof fn lemma_delta_periodic(ev: EventType, ts: int)
    requires
        ts >= ev.epoch(),
    ensures
        delta_of(ev, ts + ev.interval()) == delta_of(ev, ts),
{
    lemma_remaining_periodic(ev.epoch() as int, ev.interval() as int, ts);
}

/// With a timestamp at or after the event's epoch the countdown succeeds,
/// with a positive result of at most the event's interval.
pub proof fn lemma_outcome_bounds(ev: EventType, ts: u64)
    requires
        ts >= ev.epoch(),
    ensures
        outcome(ev, Some(ts)) is Ok,
        0 < outcome(ev, Some(ts))->Ok_0 <= ev.interval(),
{
    lemma_delta_bounds(ev, ts as int);
}

/// The countdown is periodic in the timestamp: one interval later it comes
/// to the same result.
pub proof fn lemma_outcome_periodic(ev: EventType, ts: u64)
    requires
        ts >= ev.epoch(),
        ts + ev.interval() <= u64::MAX,
    ensures
        outcome(ev, Some((ts + ev.interval()) as u64)) == outcome(ev, Some(ts)),
{
    lemma_delta_periodic(ev, ts as int);
}

/// Seconds from `ts` to the next occurrence of something that happened at
/// `epoch` and repeats every `interval` seconds.
pub fn time_until(epoch: u64, interval: u64, ts: u64) -> (delta: u64)
    requires
        interval > 0,
        ts >= epoch,
    ensures
        delta == remaining(epoch as int, interval as int, ts as int),
        0 < delta <= interval,
{
    proof {
        lemma_remaining_bounds(epoch as int, interval as int, ts as int);
    }
    let elapsed: u64 = (ts - epoch) % interval;
    interval - elapsed
}

/// The countdown for `ev`, given what the clock said.
pub fn calc_delta_at(ev: EventType, reading: Option<u64>) -> (r: Result<u64, DeltaError>)
    ensures
        r == outcome(ev, reading),
        r matches Ok(delta) ==> 0 < delta <= ev.interval(),
{
    match reading {
        None => Err(DeltaError::ClockUnavailable),
        Some(t) => {
            if t < ev.epoch() {
                Err(DeltaError::BeforeEpoch)
            } else {
                Ok(time_until(ev.epoch(), ev.interval(), t))
            }
        },
    }
}

/// Seconds until the next occurrence of `ev`, counted from `ts`, or from the
/// system clock where `ts` is `None`.
///
/// With a timestamp the result is fixed: the countdown at that second, or
/// `BeforeEpoch` where it lies before the event's epoch. Without one the
/// result is what [`calc_delta_at`] makes of the clock's reading, whatever
/// that was.
pub fn calc_delta(ev: EventType, ts: Option<u64>) -> (r: Result<u64, DeltaError>)
    ensures
        ts is Some ==> r == outcome(ev, ts),
        ts is None ==> exists|reading: Option<u64>| r == outcome(ev, reading),
        r matches Ok(delta) ==> 0 < delta <= ev.interval(),
        r matches Err(e) ==> (e == DeltaError::ClockUnavailable ==> ts is None),
{
    let reading = match ts {
        Some(t) => Some(t),
        None => unix_now(),
    };
    calc_delta_at(ev, reading)
}

} // verus!
