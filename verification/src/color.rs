//! The background colour that tells how close an event is.

use vstd::prelude::*;

verus! {

/// A colour as red, green and blue, eight bits each.
#[derive(Clone, Copy, Debug, PartialEq, Eq, Structural)]
pub struct Rgb {
    pub r: u8,
    pub g: u8,
    pub b: u8,
}

/// Seconds left at or below which an event shows as imminent.
pub const IMMINENT_SECS: u64 = 300;

/// Seconds left at or below which an event shows as near.
pub const NEAR_SECS: u64 = 600;

/// The colour for a countdown of `delta` seconds: red up to five minutes,
/// yellow up to ten, grey beyond.
pub open spec fn color_of(delta: u64) -> Rgb {
    if delta <= IMMINENT_SECS {
        Rgb { r: 0xff, g: 0x80, b: 0x80 }
    } else if delta <= NEAR_SECS {
        Rgb { r: 0xff, g: 0xff, b: 0x00 }
    } else {
        Rgb { r: 0x80, g: 0x80, b: 0x80 }
    }
}

/// The background colour for a countdown of `delta` seconds.
pub fn get_color(delta: u64) -> (color: Rgb)
    ensures
        color == color_of(delta),
{
    if delta <= IMMINENT_SECS {
        Rgb { r: 0xff, g: 0x80, b: 0x80 }
    } else if delta <= NEAR_SECS {
        Rgb { r: 0xff, g: 0xff, b: 0x00 }
    } else {
        Rgb { r: 0x80, g: 0x80, b: 0x80 }
    }
}

} // verus!
