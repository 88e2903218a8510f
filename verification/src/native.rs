//! The native provider's status and failure codes, and their classification
//! into the closed error set.
//!
//! The native layer reports three things as plain values: an access status
//! from a permission request, an availability status from the watch's
//! status channel, and a signed 32-bit failure code from any call that
//! failed. Classification of each into [`GeolocatorError`] happens here,
//! exactly once, at the boundary.

use vstd::prelude::*;

use crate::model::GeolocatorError;

verus! {

/// Native access status: the user or system has not decided yet.
pub const ACCESS_STATUS_UNSPECIFIED: i32 = 0;
/// Native access status: permission is granted.
pub const ACCESS_STATUS_ALLOWED: i32 = 1;
/// Native access status: permission is denied.
pub const ACCESS_STATUS_DENIED: i32 = 2;

/// Native availability status: the provider is delivering fixes.
pub const POSITION_STATUS_READY: i32 = 0;
/// Native availability status: the provider is still starting up.
pub const POSITION_STATUS_INITIALIZING: i32 = 1;

/// The native success code. A native error that carries it is contradictory
/// and signals a binding bug.
pub const HRESULT_OK: i32 = 0;
/// The native failure code for an operation refused for want of permission.
pub const HRESULT_ACCESS_DENIED: i32 = -2147024891;

/// The error kind that one nonzero native failure code maps to: a refusal
/// for want of permission surfaces as `AccessDenied`, every other code as
/// `Unknown`.
pub open spec fn error_of_code(code: i32) -> GeolocatorError {
    if code == HRESULT_ACCESS_DENIED {
        GeolocatorError::AccessDenied
    } else {
        GeolocatorError::Unknown
    }
}

/// Classify one nonzero native failure code into the closed error set.
///
/// The success code never names a failure; a native error carrying it is a
/// contradiction that this layer treats as fatal, so it is excluded here
/// and handled by [`classify_native_error`].
pub fn classify_hresult(code: i32) -> (r: GeolocatorError)
    requires
        code != HRESULT_OK,
    ensures
        r == error_of_code(code),
{
    if code == HRESULT_ACCESS_DENIED {
        GeolocatorError::AccessDenied
    } else {
        GeolocatorError::Unknown
    }
}

/// `windows_result::Error`, the error type of every native call, carried
/// opaquely: only its raw code is read, through [`native_error_code`].
#[verifier::external_type_specification]
#[verifier::external_body]
pub struct ExNativeError(windows_result::Error);

/// The raw code a native error carries. It is a function of the error
/// value alone: the error stores it at construction and never changes it.
pub uninterp spec fn code_of(e: windows_result::Error) -> i32;

/// Relies on `windows_result::Error::code`, which hands back the `HRESULT`
/// the error stores; the raw value inside it is returned.
#[verifier::external_body]
fn native_error_code(e: &windows_result::Error) -> (r: i32)
    ensures
        r == code_of(*e),
{
    e.code().0
}

/// Classify a native error by the code it carries. A native error carrying
/// the success code is a contradiction that the caller must treat as fatal:
/// for it, and only for it, this returns `None`; every other error
/// classifies exactly as its code does.
pub fn classify_native_error(e: &windows_result::Error) -> (r: Option<GeolocatorError>)
    ensures
        r is None <==> code_of(*e) == HRESULT_OK,
        code_of(*e) != HRESULT_OK ==> r == Some(error_of_code(code_of(*e))),
{
    let code = native_error_code(e);
    if code == HRESULT_OK {
        None
    } else {
        Some(classify_hresult(code))
    }
}

} // verus!
