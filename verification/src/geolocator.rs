//! The public façade: one stable entry type that delegates every operation,
//! unchanged, to the provider adapter compiled in for the target platform.

use vstd::prelude::*;

use crate::adapter::{
    stop_plan, watch_plan, GeolocatorImpl, StopAction, WatchAction,
};
use crate::fix::{coords_of_fix, NativeFix};
use crate::model::{GeolocatorCoordinates, GeolocatorError, GeolocatorOptions};
use crate::native::{error_of_code, ACCESS_STATUS_ALLOWED, HRESULT_OK};

verus! {

/// The stable cross-platform entry type. It holds exactly one provider
/// adapter and adds no logic of its own: every operation is a direct
/// delegation, and every contract repeats the adapter's.
pub struct Geolocator {
    imp: GeolocatorImpl,
}

impl Geolocator {
    /// The adapter instance this façade delegates to.
    pub closed spec fn adapter(self) -> GeolocatorImpl {
        self.imp
    }

    /// A fresh geolocator: no watch is recorded.
    pub fn new() -> (r: Geolocator)
        ensures
            r.adapter().position_token() == 0,
            r.adapter().status_token() == 0,
    {
        Geolocator { imp: GeolocatorImpl::new() }
    }

    /// Delegates to [`GeolocatorImpl::watch_position`]: the steps that
    /// start a watch, precision first when high accuracy was requested.
    pub fn watch_position(&self, options: Option<GeolocatorOptions>) -> (r: Vec<WatchAction>)
        ensures
            r@ == watch_plan(options),
    {
        self.imp.watch_position(options)
    }

    /// Delegates to [`GeolocatorImpl::complete_watch`]: record the tokens
    /// that registration produced.
    pub fn complete_watch(&mut self, position_token: i64, status_token: i64)
        ensures
            final(self).adapter().position_token() == position_token,
            final(self).adapter().status_token() == status_token,
    {
        self.imp.complete_watch(position_token, status_token)
    }

    /// Delegates to [`GeolocatorImpl::stop_watch`]: the steps that stop the
    /// active watch, deregistering both recorded tokens.
    pub fn clear_watch(&self) -> (r: Vec<StopAction>)
        ensures
            r@ == stop_plan(self.adapter()),
    {
        self.imp.stop_watch()
    }

    /// Delegates to [`GeolocatorImpl::current_position`]: fold one native
    /// position outcome into the uniform result.
    pub fn current_position(&self, outcome: Result<NativeFix, i32>) -> (r: Result<
        GeolocatorCoordinates,
        GeolocatorError,
    >)
        requires
            outcome matches Err(code) ==> code != HRESULT_OK,
        ensures
            outcome matches Ok(f) ==> r == Ok::<GeolocatorCoordinates, GeolocatorError>(
                coords_of_fix(f),
            ),
            outcome matches Err(code) ==> r == Err::<GeolocatorCoordinates, GeolocatorError>(
                error_of_code(code),
            ),
    {
        self.imp.current_position(outcome)
    }

    /// Delegates to [`GeolocatorImpl::request_access`]: access is granted
    /// exactly when the native status is "allowed".
    pub fn request_access(outcome: Result<i32, i32>) -> (r: Result<(), GeolocatorError>)
        requires
            outcome matches Err(code) ==> code != HRESULT_OK,
        ensures
            r is Ok <==> outcome == Ok::<i32, i32>(ACCESS_STATUS_ALLOWED),
            outcome matches Ok(status) && status != ACCESS_STATUS_ALLOWED ==> r == Err::<
                (),
                GeolocatorError,
            >(GeolocatorError::AccessDenied),
            outcome matches Err(code) ==> r == Err::<(), GeolocatorError>(error_of_code(code)),
    {
        GeolocatorImpl::request_access(outcome)
    }
}

} // verus!
