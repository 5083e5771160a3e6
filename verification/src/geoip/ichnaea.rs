//! The reply of Mozilla's Ichnaea geolocation API, which Geoclue reads.

use vstd::prelude::*;

verus! {

/// A position. Each coordinate is the bit pattern (`f32::to_bits`) of a
/// single-precision number of degrees, carried unchanged.
#[derive(Clone, Copy, Debug, PartialEq, Eq, Structural)]
pub struct Location {
    pub lat: u32,
    pub lng: u32,
}

/// An Ichnaea reply: a position and its accuracy in metres, the latter
/// also the bit pattern of a single-precision number.
#[derive(Clone, Copy, Debug, PartialEq, Eq, Structural)]
pub struct Response {
    pub accuracy: u32,
    pub location: Location,
}

} // verus!
