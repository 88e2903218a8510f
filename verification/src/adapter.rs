//! The provider adapter: the state of one watch subscription and every
//! decision the adaptation layer makes.
//!
//! The native provider's calls are asynchronous and platform-bound, so the
//! runtime around the library performs them. The adapter decides: which
//! native steps start a watch and in what order, which steps stop it, what
//! one native outcome means for the caller, and what each native event
//! delivers to the caller's callbacks. Each decision works on plain values
//! and carries its contract.

use vstd::prelude::*;

use crate::fix::{coords_of_fix, NativeFix};
use crate::model::{GeolocatorCoordinates, GeolocatorError, GeolocatorOptions};
use crate::native::{
    classify_hresult, error_of_code, ACCESS_STATUS_ALLOWED, HRESULT_OK,
    POSITION_STATUS_INITIALIZING, POSITION_STATUS_READY,
};

verus! {

/// One step the runtime must take against the native provider to start a
/// watch, in the order given by [`watch_plan`].
#[derive(Clone, Copy, PartialEq, Eq, Structural, Debug)]
pub enum WatchAction {
    /// Put the provider in its highest-precision mode.
    SetHighAccuracy,
    /// Register the position-changed callback; registration yields a token.
    RegisterPositionChanged,
    /// Register the status-changed callback; registration yields a token.
    RegisterStatusChanged,
}

/// One step the runtime must take against the native provider to stop the
/// active watch; the payload is the token to deregister.
#[derive(Clone, Copy, PartialEq, Eq, Structural, Debug)]
pub enum StopAction {
    /// Deregister the position-changed callback registered under this token.
    RemovePositionChanged(i64),
    /// Deregister the status-changed callback registered under this token.
    RemoveStatusChanged(i64),
}

/// Whether the caller asked for the provider's highest-precision mode.
pub open spec fn high_accuracy_requested(options: Option<GeolocatorOptions>) -> bool {
    options matches Some(o) && o.high_accuracy
}

/// The exact sequence of native steps that starts a watch under `options`:
/// when high accuracy was requested, the precision mode is set first, and
/// the position callback is registered before the status callback.
pub open spec fn watch_plan(options: Option<GeolocatorOptions>) -> Seq<WatchAction> {
    if high_accuracy_requested(options) {
        seq![
            WatchAction::SetHighAccuracy,
            WatchAction::RegisterPositionChanged,
            WatchAction::RegisterStatusChanged,
        ]
    } else {
        seq![
            WatchAction::RegisterPositionChanged,
            WatchAction::RegisterStatusChanged,
        ]
    }
}

/// The exact sequence of native steps that stops the watch recorded in `g`:
/// deregister the position registration, then the status registration.
pub open spec fn stop_plan(g: GeolocatorImpl) -> Seq<StopAction> {
    seq![
        StopAction::RemovePositionChanged(g.position_token()),
        StopAction::RemoveStatusChanged(g.status_token()),
    ]
}

/// The adapter for one native provider instance: it owns the two
/// registration tokens of the active watch, and no caller touches a raw
/// token except through the plans it hands out.
///
/// A zero token stands for "no registration recorded"; the native provider
/// never hands out zero. Stopping a watch that was never started, or twice,
/// deregisters whatever the recorded tokens name, which mirrors the native
/// provider's own treatment of stale tokens.
pub struct GeolocatorImpl {
    position_token: i64,
    status_token: i64,
}

impl GeolocatorImpl {
    /// The token under which the position-changed callback is registered.
    pub closed spec fn position_token(self) -> i64 {
        self.position_token
    }

    /// The token under which the status-changed callback is registered.
    pub closed spec fn status_token(self) -> i64 {
        self.status_token
    }

    /// A fresh adapter: no watch is recorded.
    pub fn new() -> (r: GeolocatorImpl)
        ensures
            r.position_token() == 0,
            r.status_token() == 0,
    {
        GeolocatorImpl { position_token: 0, status_token: 0 }
    }

    /// Decide the steps that start a watch. When the caller asked for high
    /// accuracy, the precision step stands before either registration, so
    /// that no early fix can be delivered at default accuracy.
    pub fn watch_position(&self, options: Option<GeolocatorOptions>) -> (r: Vec<WatchAction>)
        ensures
            r@ == watch_plan(options),
    {
        let mut plan: Vec<WatchAction> = Vec::new();
        if let Some(o) = options {
            if o.high_accuracy {
                plan.push(WatchAction::SetHighAccuracy);
            }
        }
        plan.push(WatchAction::RegisterPositionChanged);
        plan.push(WatchAction::RegisterStatusChanged);
        proof {
            assert(plan@ =~= watch_plan(options));
        }
        plan
    }

    /// Record the two tokens that registration produced; the adapter owns
    /// them from here on.
    pub fn complete_watch(&mut self, position_token: i64, status_token: i64)
        ensures
            final(self).position_token() == position_token,
            final(self).status_token() == status_token,
    {
        self.position_token = position_token;
        self.status_token = status_token;
    }

    /// Decide the steps that stop the active watch: both recorded tokens
    /// are deregistered, position first.
    pub fn stop_watch(&self) -> (r: Vec<StopAction>)
        ensures
            r@ == stop_plan(*self),
    {
        let mut plan: Vec<StopAction> = Vec::new();
        plan.push(StopAction::RemovePositionChanged(self.position_token));
        plan.push(StopAction::RemoveStatusChanged(self.status_token));
        proof {
            assert(plan@ =~= stop_plan(*self));
        }
        plan
    }

    /// Fold the outcome of one native position request into the uniform
    /// result: a delivered fix converts field by field, and a failure code
    /// classifies into the closed error set.
    pub fn current_position(&self, outcome: Result<NativeFix, i32>) -> (r: Result<
        GeolocatorCoordinates,
        GeolocatorError,
    >)
        requires
            outcome matches Err(code) ==> code != HRESULT_OK,
        ensures
            outcome matches Ok(f) ==> r == Ok::<GeolocatorCoordinates, GeolocatorError>(
                coords_of_fix(f),
            ),
            outcome matches Err(code) ==> r == Err::<GeolocatorCoordinates, GeolocatorError>(
                error_of_code(code),
            ),
    {
        match outcome {
            Ok(f) => Ok(GeolocatorCoordinates::from_fix(&f)),
            Err(code) => Err(classify_hresult(code)),
        }
    }

    /// Fold the outcome of one native permission request into the uniform
    /// result. A reported status grants access exactly when it is
    /// "allowed"; every other status, decided or not, denies it. A failure
    /// code from the request itself classifies into the closed error set.
    pub fn request_access(outcome: Result<i32, i32>) -> (r: Result<(), GeolocatorError>)
        requires
            outcome matches Err(code) ==> code != HRESULT_OK,
        ensures
            r is Ok <==> outcome == Ok::<i32, i32>(ACCESS_STATUS_ALLOWED),
            outcome matches Ok(status) && status != ACCESS_STATUS_ALLOWED ==> r == Err::<
                (),
                GeolocatorError,
            >(GeolocatorError::AccessDenied),
            outcome matches Err(code) ==> r == Err::<(), GeolocatorError>(error_of_code(code)),
    {
        match outcome {
            Ok(status) => {
                if status == ACCESS_STATUS_ALLOWED {
                    Ok(())
                } else {
                    Err(GeolocatorError::AccessDenied)
                }
            },
            Err(code) => Err(classify_hresult(code)),
        }
    }
}

/// What one position-changed event delivers to the caller's position
/// callback: the converted fix, or nothing when the event carried no
/// readable fix. Such an event is dropped for that fix alone; it never
/// tears down the watch.
pub fn position_event_delivery(event: Option<NativeFix>) -> (r: Option<GeolocatorCoordinates>)
    ensures
        event matches Some(f) ==> r == Some(coords_of_fix(f)),
        event is None ==> r is None,
{
    match event {
        Some(f) => Some(GeolocatorCoordinates::from_fix(&f)),
        None => None,
    }
}

/// What one status-changed event delivers to the caller's status callback:
/// a healthy status — ready or still initializing — delivers nothing, and
/// every other status delivers exactly one `Unavailable`.
pub fn status_event_delivery(status: i32) -> (r: Option<GeolocatorError>)
    ensures
        r is None <==> status == POSITION_STATUS_READY || status == POSITION_STATUS_INITIALIZING,
        r matches Some(e) ==> e == GeolocatorError::Unavailable,
{
    if status == POSITION_STATUS_READY || status == POSITION_STATUS_INITIALIZING {
        None
    } else {
        Some(GeolocatorError::Unavailable)
    }
}

/// When high accuracy was requested, the precision step is the first step
/// of the watch plan and no later step sets precision: both callbacks are
/// registered only after the provider is in its highest-precision mode.
pub proof fn lemma_accuracy_set_before_any_registration(options: Option<GeolocatorOptions>)
    requires
        high_accuracy_requested(options),
    ensures
        watch_plan(options)[0] == WatchAction::SetHighAccuracy,
        forall|i: int|
            0 < i < watch_plan(options).len() ==> watch_plan(options)[i]
                != WatchAction::SetHighAccuracy,
{
}

/// A watch plan registers each callback exactly once: some step registers
/// the position callback, some step registers the status callback, no two
/// steps are alike, and a precision step appears exactly when high accuracy
/// was requested.
pub proof fn lemma_watch_plan_registers_once(options: Option<GeolocatorOptions>)
    ensures
        exists|i: int|
            0 <= i < watch_plan(options).len() && watch_plan(options)[i]
                == WatchAction::RegisterPositionChanged,
        exists|i: int|
            0 <= i < watch_plan(options).len() && watch_plan(options)[i]
                == WatchAction::RegisterStatusChanged,
        forall|i: int, j: int|
            0 <= i < j < watch_plan(options).len() ==> watch_plan(options)[i] != watch_plan(
                options,
            )[j],
        (exists|i: int|
            0 <= i < watch_plan(options).len() && watch_plan(options)[i]
                == WatchAction::SetHighAccuracy) <==> high_accuracy_requested(options),
{
    let plan = watch_plan(options);
    if high_accuracy_requested(options) {
        assert(plan[0] == WatchAction::SetHighAccuracy);
        assert(plan[1] == WatchAction::RegisterPositionChanged);
        assert(plan[2] == WatchAction::RegisterStatusChanged);
    } else {
        assert(plan[0] == WatchAction::RegisterPositionChanged);
        assert(plan[1] == WatchAction::RegisterStatusChanged);
    }
}

/// Stopping the watch recorded in `g` deregisters both recorded tokens:
/// the plan holds exactly one removal for each, position first.
pub proof fn lemma_stop_removes_both_tokens(g: GeolocatorImpl)
    ensures
        stop_plan(g).len() == 2,
        stop_plan(g)[0] == StopAction::RemovePositionChanged(g.position_token()),
        stop_plan(g)[1] == StopAction::RemoveStatusChanged(g.status_token()),
{
}

/// The registration table a correct native provider keeps for one adapter
/// instance: the token of each live callback registration, or nothing once
/// that registration has ended.
#[derive(Clone, Copy, PartialEq, Eq, Structural, Debug)]
pub struct ProviderRegistrations {
    /// The live position-changed registration, by its token.
    pub position: Option<i64>,
    /// The live status-changed registration, by its token.
    pub status: Option<i64>,
}

/// The registration table after one stop step, on a provider that honours
/// deregistration: naming a live token ends that registration, and naming
/// any other token changes nothing.
pub open spec fn after_stop_action(
    regs: ProviderRegistrations,
    action: StopAction,
) -> ProviderRegistrations {
    match action {
        StopAction::RemovePositionChanged(token) => if regs.position == Some(token) {
            ProviderRegistrations { position: None, status: regs.status }
        } else {
            regs
        },
        StopAction::RemoveStatusChanged(token) => if regs.status == Some(token) {
            ProviderRegistrations { position: regs.position, status: None }
        } else {
            regs
        },
    }
}

/// The registration table after a whole stop plan, applied in order.
pub open spec fn after_stop_plan(
    regs: ProviderRegistrations,
    plan: Seq<StopAction>,
) -> ProviderRegistrations
    decreases plan.len(),
{
    if plan.len() == 0 {
        regs
    } else {
        after_stop_plan(after_stop_action(regs, plan[0]), plan.subrange(1, plan.len() as int))
    }
}

/// Whether a position event the provider produces reaches the caller's
/// position callback: only through a live position registration.
pub open spec fn position_event_reaches_callback(
    regs: ProviderRegistrations,
    event: Option<NativeFix>,
) -> bool {
    regs.position is Some && event is Some
}

/// Whether a status change the provider reports reaches the caller's
/// status callback: only through a live status registration, and only for
/// a degraded status.
pub open spec fn status_change_reaches_callback(regs: ProviderRegistrations, status: i32) -> bool {
    regs.status is Some && status != POSITION_STATUS_READY && status
        != POSITION_STATUS_INITIALIZING
}

/// No callback leaks past a stop. After a successful watch the provider's
/// table holds exactly the two recorded tokens; the stop plan ends both
/// registrations on any provider that honours deregistration, so no later
/// position event reaches the position callback and no later status change
/// reaches the status callback.
pub proof fn lemma_no_delivery_after_stop(g: GeolocatorImpl, event: Option<NativeFix>, status: i32)
    ensures
        ({
            let live = ProviderRegistrations {
                position: Some(g.position_token()),
                status: Some(g.status_token()),
            };
            let stopped = after_stop_plan(live, stop_plan(g));
            stopped.position is None && stopped.status is None
                && !position_event_reaches_callback(stopped, event)
                && !status_change_reaches_callback(stopped, status)
        }),
{
    reveal_with_fuel(after_stop_plan, 3);
    let live = ProviderRegistrations {
        position: Some(g.position_token()),
        status: Some(g.status_token()),
    };
    let plan = stop_plan(g);
    let once = after_stop_action(live, plan[0]);
    let rest = plan.subrange(1, 2);
    assert(rest[0] == plan[1]);
    assert(rest.subrange(1, 1).len() == 0);
    assert(after_stop_plan(live, plan) == after_stop_plan(once, rest));
}

} // verus!

