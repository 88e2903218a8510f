//! A uniform view of a device's geographic location service.
//!
//! The library adapts a native location provider's event model to a stable
//! surface: a coordinate record, a closed error set, and the decisions that
//! drive a one-shot position query, a permission request, and a
//! subscription-based watch. The native provider's own calls are
//! asynchronous and platform-bound; the runtime around the library performs
//! them and hands their outcomes here as plain values, where every decision
//! is made and verified.

pub mod adapter;
pub mod fix;
pub mod geolocator;
pub mod model;
pub mod native;

pub use adapter::{GeolocatorImpl, StopAction, WatchAction};
pub use fix::NativeFix;
pub use geolocator::Geolocator;
pub use model::{GeolocatorCoordinates, GeolocatorError, GeolocatorOptions};
