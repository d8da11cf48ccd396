//! The three periodic events, each with the instant of one past occurrence
//! and its repeat interval.

use vstd::prelude::*;

verus! {

/// Unix timestamp of one past World Boss spawn.
pub const WB_INIT: u64 = 1708381800;

/// Seconds between World Boss spawns: three and a half hours.
pub const WB_EVERY: u64 = 60 * 210;

/// Unix timestamp of one past Legion Event.
pub const LE_INIT: u64 = 1708381200;

/// Seconds between Legion Events: twenty-five minutes.
pub const LE_EVERY: u64 = 60 * 25;

/// Unix timestamp of one past Realm Walker appearance.
pub const RW_INIT: u64 = 1728414300;

/// Seconds between Realm Walker appearances: fifteen minutes.
pub const RW_EVERY: u64 = 60 * 15;

/// The event whose countdown is asked for.
#[derive(Clone, Copy, Debug, PartialEq, Eq, Structural)]
pub enum EventType {
    /// World Boss.
    WB,
    /// Legion Event.
    LE,
    /// Realm Walker.
    RW,
}

impl EventType {
    /// The event's epoch: the unix timestamp of one past occurrence.
    pub open spec fn spec_epoch(self) -> u64 {
        match self {
            EventType::WB => WB_INIT,
            EventType::LE => LE_INIT,
            EventType::RW => RW_INIT,
        }
    }

    /// The event's repeat interval in seconds.
    pub open spec fn spec_interval(self) -> u64 {
        match self {
            EventType::WB => WB_EVERY,
            EventType::LE => LE_EVERY,
            EventType::RW => RW_EVERY,
        }
    }

    /// The event's epoch.
    #[verifier::when_used_as_spec(spec_epoch)]
    pub fn epoch(self) -> (e: u64)
        ensures
            e == self.spec_epoch(),
    {
        match self {
            EventType::WB => WB_INIT,
            EventType::LE => LE_INIT,
            EventType::RW => RW_INIT,
        }
    }

    /// The event's repeat interval, which is never zero.
    #[verifier::when_used_as_spec(spec_interval)]
    pub fn interval(self) -> (i: u64)
        ensures
            i == self.spec_interval(),
            i > 0,
    {
        match self {
            EventType::WB => WB_EVERY,
            EventType::LE => LE_EVERY,
            EventType::RW => RW_EVERY,
        }
    }
}

} // verus!
