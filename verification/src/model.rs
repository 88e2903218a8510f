//! The data models surfaced to callers: one location fix, the caller's
//! options, and the closed set of failure kinds.

use vstd::prelude::*;

verus! {

/// One failure kind surfaced to callers. The set is closed: every native
/// failure is mapped at the boundary into exactly one of these, and no
/// variant carries a payload, so callers branch on kind alone.
#[derive(Clone, Copy, PartialEq, Eq, Structural, Debug)]
pub enum GeolocatorError {
    /// Permission to read the device's location was not granted.
    AccessDenied,
    /// The provider signalled that it cannot produce fixes, for instance
    /// because location services are disabled or a sensor is faulty.
    Unavailable,
    /// Any other native failure, including ones this layer cannot name.
    Unknown,
}

/// A single geographic fix as callers see it.
///
/// Each measurement is carried as the bit pattern of the native
/// double-precision reading: this layer transports measurements, it never
/// interprets or validates them. An optional field is `None` exactly when
/// the underlying fix did not include that measurement; absence is distinct
/// from a reading of zero.
#[derive(Clone, Copy, PartialEq, Debug)]
pub struct GeolocatorCoordinates {
    /// Degrees of latitude.
    pub latitude: u64,
    /// Degrees of longitude.
    pub longitude: u64,
    /// Meters above the reference surface, when the fix measured it.
    pub altitude: Option<u64>,
    /// Horizontal uncertainty of the fix, in meters.
    pub accuracy: u64,
    /// Uncertainty of the altitude, in meters, when the fix measured it.
    pub altitude_accuracy: Option<u64>,
    /// Degrees from true north, when the fix measured it.
    pub heading: Option<u64>,
    /// Meters per second, when the fix measured it.
    pub speed: Option<u64>,
}

/// The caller's configuration for a watch.
#[derive(Clone, Copy, PartialEq, Eq, Structural, Debug)]
pub struct GeolocatorOptions {
    /// Ask the provider for its highest-precision mode, trading power and
    /// latency for precision. Unset means the provider chooses its default.
    pub high_accuracy: bool,
}

} // verus!
