//! The three countdowns that the display shows, and their refresh.

use vstd::prelude::*;
use crate::delta::{calc_delta, outcome, DeltaError};
use crate::event::EventType;

verus! {

/// What can happen to the display's state.
#[derive(Clone, Copy, Debug, PartialEq, Eq, Structural)]
pub enum Message {
    /// A second has passed.
    Tick,
}

/// Seconds left to the next occurrence of each event.
#[derive(Clone, Copy, Debug, PartialEq, Eq, Structural)]
pub struct Counts {
    /// World Boss.
    pub wb: u64,
    /// Legion Event.
    pub le: u64,
    /// Realm Walker.
    pub rw: u64,
}

/// The first error among three countdowns, in the order World Boss, Legion
/// Event, Realm Walker; `Ok` where all three succeeded.
pub open spec fn first_error(
    wb: Result<u64, DeltaError>,
    le: Result<u64, DeltaError>,
    rw: Result<u64, DeltaError>,
) -> Result<(), DeltaError> {
    match (wb, le, rw) {
        (Err(e), _, _) => Err(e),
        (Ok(_), Err(e), _) => Err(e),
        (Ok(_), Ok(_), Err(e)) => Err(e),
        (Ok(_), Ok(_), Ok(_)) => Ok(()),
    }
}

impl Counts {
    /// Each countdown is positive and at most its event's interval: what
    /// holds after every successful refresh.
    pub open spec fn in_range(self) -> bool {
        &&& 0 < self.wb <= EventType::WB.interval()
        &&& 0 < self.le <= EventType::LE.interval()
        &&& 0 < self.rw <= EventType::RW.interval()
    }

    /// The state after three countdowns were computed: all three taken over
    /// where all succeeded, else `self` as it was.
    pub open spec fn refreshed(
        self,
        wb: Result<u64, DeltaError>,
        le: Result<u64, DeltaError>,
        rw: Result<u64, DeltaError>,
    ) -> Counts {
        match (wb, le, rw) {
            (Ok(a), Ok(b), Ok(c)) => Counts { wb: a, le: b, rw: c },
            _ => self,
        }
    }

    /// Takes over three countdowns where all succeeded. Where one failed the
    /// state stays as it was and the first error is returned.
    pub fn refresh(
        &mut self,
        wb: Result<u64, DeltaError>,
        le: Result<u64, DeltaError>,
        rw: Result<u64, DeltaError>,
    ) -> (r: Result<(), DeltaError>)
        ensures
            r == first_error(wb, le, rw),
            *final(self) == old(self).refreshed(wb, le, rw),
    {
        match (wb, le, rw) {
            (Ok(a), Ok(b), Ok(c)) => {
                self.wb = a;
                self.le = b;
                self.rw = c;
                Ok(())
            },
            (Err(e), _, _) => Err(e),
            (Ok(_), Err(e), _) => Err(e),
            (Ok(_), Ok(_), Err(e)) => Err(e),
        }
    }
}

impl Default for Counts {
    /// All three countdowns at zero: nothing computed yet.
    fn default() -> (c: Counts)
        ensures
            c == (Counts { wb: 0, le: 0, rw: 0 }),
    {
        Counts { wb: 0, le: 0, rw: 0 }
    }
}

/// Recomputes the three countdowns from the system clock, which is read once
/// for each.
///
/// The new state is what [`Counts::refresh`] makes of the three readings,
/// whatever they were. Where it returns `Ok` every countdown is positive and
/// at most its event's interval; where it returns an error the state is as
/// it was.
pub fn update(counts: &mut Counts, msg: Message) -> (r: Result<(), DeltaError>)
    ensures
        exists|wb: Option<u64>, le: Option<u64>, rw: Option<u64>|
            {
                &&& r == first_error(
                    #[trigger] outcome(EventType::WB, wb),
                    #[trigger] outcome(EventType::LE, le),
                    #[trigger] outcome(EventType::RW, rw),
                )
                &&& *final(counts) == old(counts).refreshed(
                    outcome(EventType::WB, wb),
                    outcome(EventType::LE, le),
                    outcome(EventType::RW, rw),
                )
            },
        r is Ok ==> final(counts).in_range(),
        r is Err ==> *final(counts) == *old(counts),
{
    match msg {
        Message::Tick => {
            let wb = calc_delta(EventType::WB, None);
            let le = calc_delta(EventType::LE, None);
            let rw = calc_delta(EventType::RW, None);
            counts.refresh(wb, le, rw)
        },
    }
}

} // verus!
