//! The native provider's view of one position fix, and its conversion into
//! the coordinates surfaced to callers.

use vstd::prelude::*;

use crate::model::GeolocatorCoordinates;

verus! {

/// What the native provider reports for one position fix, as plain values.
///
/// Each measurement is the bit pattern of the native double-precision
/// reading. An optional measurement is `None` exactly when the provider's
/// fix did not include it.
#[derive(Clone, Copy, PartialEq, Debug)]
pub struct NativeFix {
    pub latitude: u64,
    pub longitude: u64,
    pub altitude: Option<u64>,
    pub accuracy: u64,
    pub altitude_accuracy: Option<u64>,
    pub heading: Option<u64>,
    pub speed: Option<u64>,
}

/// The coordinates that one native fix converts to: every measurement is
/// carried over field by field, and a measurement the fix left out stays
/// absent.
pub open spec fn coords_of_fix(f: NativeFix) -> GeolocatorCoordinates {
    GeolocatorCoordinates {
        latitude: f.latitude,
        longitude: f.longitude,
        altitude: f.altitude,
        accuracy: f.accuracy,
        altitude_accuracy: f.altitude_accuracy,
        heading: f.heading,
        speed: f.speed,
    }
}

/// The native fix that a set of coordinates stands for.
pub open spec fn fix_of_coords(c: GeolocatorCoordinates) -> NativeFix {
    NativeFix {
        latitude: c.latitude,
        longitude: c.longitude,
        altitude: c.altitude,
        accuracy: c.accuracy,
        altitude_accuracy: c.altitude_accuracy,
        heading: c.heading,
        speed: c.speed,
    }
}

impl GeolocatorCoordinates {
    /// Convert one native fix, field by field, into the record surfaced to
    /// callers.
    pub fn from_fix(f: &NativeFix) -> (r: GeolocatorCoordinates)
        ensures
            r == coords_of_fix(*f),
    {
        GeolocatorCoordinates {
            latitude: f.latitude,
            longitude: f.longitude,
            altitude: f.altitude,
            accuracy: f.accuracy,
            altitude_accuracy: f.altitude_accuracy,
            heading: f.heading,
            speed: f.speed,
        }
    }
}

impl NativeFix {
    /// Recover the native view of a coordinate record, field by field.
    pub fn from_coordinates(c: &GeolocatorCoordinates) -> (r: NativeFix)
        ensures
            r == fix_of_coords(*c),
    {
        NativeFix {
            latitude: c.latitude,
            longitude: c.longitude,
            altitude: c.altitude,
            accuracy: c.accuracy,
            altitude_accuracy: c.altitude_accuracy,
            heading: c.heading,
            speed: c.speed,
        }
    }
}

/// Converting a native fix to coordinates and back preserves every field the
/// fix populated, and a measurement the fix left out surfaces as absent,
/// never as a reading of zero.
pub proof fn lemma_fix_round_trip(f: NativeFix)
    ensures
        fix_of_coords(coords_of_fix(f)) == f,
        coords_of_fix(f).altitude is None <==> f.altitude is None,
        coords_of_fix(f).altitude_accuracy is None <==> f.altitude_accuracy is None,
        coords_of_fix(f).heading is None <==> f.heading is None,
        coords_of_fix(f).speed is None <==> f.speed is None,
{
}

/// Every coordinate record is the image of exactly one native fix: the
/// conversion loses nothing in either direction.
pub proof fn lemma_coords_round_trip(c: GeolocatorCoordinates)
    ensures
        coords_of_fix(fix_of_coords(c)) == c,
{
}

} // verus!
