//! End-to-end checks of the adaptation layer against a simulated native
//! provider: conversion of fixes, classification of statuses and failure
//! codes, and the watch lifecycle driven through the plans the library
//! hands out.

use geolocator::adapter::{position_event_delivery, status_event_delivery};
use geolocator::native::{
    classify_native_error, ACCESS_STATUS_ALLOWED, ACCESS_STATUS_DENIED, ACCESS_STATUS_UNSPECIFIED,
    HRESULT_ACCESS_DENIED, POSITION_STATUS_INITIALIZING, POSITION_STATUS_READY,
};
use geolocator::{
    Geolocator, GeolocatorCoordinates, GeolocatorError, GeolocatorOptions, NativeFix, StopAction,
    WatchAction,
};

/// A generic native failure code (E_FAIL), matching no known case.
const HRESULT_GENERIC: i32 = -2147467259;

fn full_fix() -> NativeFix {
    NativeFix {
        latitude: 48.8584f64.to_bits(),
        longitude: 2.2945f64.to_bits(),
        altitude: Some(330.0f64.to_bits()),
        accuracy: 12.5f64.to_bits(),
        altitude_accuracy: Some(3.0f64.to_bits()),
        heading: Some(90.0f64.to_bits()),
        speed: Some(1.25f64.to_bits()),
    }
}

fn bare_fix(latitude: f64, longitude: f64, accuracy: f64) -> NativeFix {
    NativeFix {
        latitude: latitude.to_bits(),
        longitude: longitude.to_bits(),
        altitude: None,
        accuracy: accuracy.to_bits(),
        altitude_accuracy: None,
        heading: None,
        speed: None,
    }
}

/// A stand-in for the native provider: it records the precision mode, hands
/// out registration tokens, and delivers events only to callbacks that are
/// still registered.
struct SimProvider {
    high_accuracy_set: bool,
    accuracy_set_before_registration: bool,
    next_token: i64,
    position_registration: Option<i64>,
    status_registration: Option<i64>,
    delivered_positions: Vec<GeolocatorCoordinates>,
    status_reports: Vec<GeolocatorError>,
}

impl SimProvider {
    fn new() -> SimProvider {
        SimProvider {
            high_accuracy_set: false,
            accuracy_set_before_registration: false,
            next_token: 40,
            position_registration: None,
            status_registration: None,
            delivered_positions: Vec::new(),
            status_reports: Vec::new(),
        }
    }

    fn apply_watch_action(&mut self, action: WatchAction) -> Option<i64> {
        match action {
            WatchAction::SetHighAccuracy => {
                if self.position_registration.is_none() && self.status_registration.is_none() {
                    self.accuracy_set_before_registration = true;
                }
                self.high_accuracy_set = true;
                None
            }
            WatchAction::RegisterPositionChanged => {
                self.next_token += 1;
                self.position_registration = Some(self.next_token);
                Some(self.next_token)
            }
            WatchAction::RegisterStatusChanged => {
                self.next_token += 1;
                self.status_registration = Some(self.next_token);
                Some(self.next_token)
            }
        }
    }

    /// Run a watch plan and hand back the two registration tokens.
    fn run_watch_plan(&mut self, plan: &[WatchAction]) -> (i64, i64) {
        let mut position_token: i64 = 0;
        let mut status_token: i64 = 0;
        for action in plan {
            let token = self.apply_watch_action(*action);
            match action {
                WatchAction::RegisterPositionChanged => position_token = token.unwrap(),
                WatchAction::RegisterStatusChanged => status_token = token.unwrap(),
                WatchAction::SetHighAccuracy => assert!(token.is_none()),
            }
        }
        (position_token, status_token)
    }

    fn apply_stop_action(&mut self, action: StopAction) {
        match action {
            StopAction::RemovePositionChanged(token) => {
                if self.position_registration == Some(token) {
                    self.position_registration = None;
                }
            }
            StopAction::RemoveStatusChanged(token) => {
                if self.status_registration == Some(token) {
                    self.status_registration = None;
                }
            }
        }
    }

    /// The provider produced a fix; it reaches the caller's callback only
    /// while the position registration is live.
    fn deliver_fix(&mut self, fix: NativeFix) {
        if self.position_registration.is_some() {
            if let Some(coordinates) = position_event_delivery(Some(fix)) {
                self.delivered_positions.push(coordinates);
            }
        }
    }

    /// The provider's availability changed; a degraded status reaches the
    /// caller's callback only while the status registration is live.
    fn deliver_status(&mut self, status: i32) {
        if self.status_registration.is_some() {
            if let Some(error) = status_event_delivery(status) {
                self.status_reports.push(error);
            }
        }
    }
}

#[test]
fn conversion_preserves_every_populated_field() {
    let fix = full_fix();
    let coordinates = GeolocatorCoordinates::from_fix(&fix);
    assert_eq!(coordinates.latitude, 48.8584f64.to_bits());
    assert_eq!(coordinates.longitude, 2.2945f64.to_bits());
    assert_eq!(coordinates.altitude, Some(330.0f64.to_bits()));
    assert_eq!(coordinates.accuracy, 12.5f64.to_bits());
    assert_eq!(coordinates.altitude_accuracy, Some(3.0f64.to_bits()));
    assert_eq!(coordinates.heading, Some(90.0f64.to_bits()));
    assert_eq!(coordinates.speed, Some(1.25f64.to_bits()));
}

#[test]
fn conversion_round_trip_restores_the_fix() {
    let fix = full_fix();
    let back = NativeFix::from_coordinates(&GeolocatorCoordinates::from_fix(&fix));
    assert_eq!(back, fix);
    let bare = bare_fix(1.0, 2.0, 3.0);
    let bare_back = NativeFix::from_coordinates(&GeolocatorCoordinates::from_fix(&bare));
    assert_eq!(bare_back, bare);
}

#[test]
fn conversion_leaves_absent_measurements_absent() {
    let coordinates = GeolocatorCoordinates::from_fix(&bare_fix(10.0, 20.0, 5.0));
    assert!(coordinates.altitude.is_none());
    assert!(coordinates.altitude_accuracy.is_none());
    assert!(coordinates.heading.is_none());
    assert!(coordinates.speed.is_none());
}

#[test]
fn access_granted_only_when_status_is_allowed() {
    assert!(Geolocator::request_access(Ok(ACCESS_STATUS_ALLOWED)).is_ok());
    let denied = [ACCESS_STATUS_UNSPECIFIED, ACCESS_STATUS_DENIED, 3, 17];
    for status in denied {
        match Geolocator::request_access(Ok(status)) {
            Err(GeolocatorError::AccessDenied) => {}
            other => panic!("status {} gave {:?}", status, other),
        }
    }
}

#[test]
fn access_request_failure_code_classifies() {
    assert!(matches!(
        Geolocator::request_access(Err(HRESULT_GENERIC)),
        Err(GeolocatorError::Unknown)
    ));
    assert!(matches!(
        Geolocator::request_access(Err(HRESULT_ACCESS_DENIED)),
        Err(GeolocatorError::AccessDenied)
    ));
}

#[test]
fn current_position_generic_failure_is_unknown() {
    let locator = Geolocator::new();
    assert!(matches!(
        locator.current_position(Err(HRESULT_GENERIC)),
        Err(GeolocatorError::Unknown)
    ));
}

#[test]
fn current_position_permission_failure_is_access_denied() {
    let locator = Geolocator::new();
    assert!(matches!(
        locator.current_position(Err(HRESULT_ACCESS_DENIED)),
        Err(GeolocatorError::AccessDenied)
    ));
}

#[test]
fn current_position_delivers_the_converted_fix() {
    let locator = Geolocator::new();
    let fix = full_fix();
    let coordinates = locator.current_position(Ok(fix)).unwrap();
    assert_eq!(coordinates, GeolocatorCoordinates::from_fix(&fix));
}

#[test]
fn high_accuracy_is_configured_before_any_delivery() {
    let locator = Geolocator::new();
    let plan = locator.watch_position(Some(GeolocatorOptions { high_accuracy: true }));
    assert_eq!(
        plan,
        vec![
            WatchAction::SetHighAccuracy,
            WatchAction::RegisterPositionChanged,
            WatchAction::RegisterStatusChanged,
        ]
    );
    let mut provider = SimProvider::new();
    provider.run_watch_plan(&plan);
    provider.deliver_fix(bare_fix(1.0, 2.0, 3.0));
    assert!(provider.high_accuracy_set);
    assert!(provider.accuracy_set_before_registration);
    assert_eq!(provider.delivered_positions.len(), 1);
}

#[test]
fn default_accuracy_plan_has_no_precision_step() {
    let locator = Geolocator::new();
    let unset = locator.watch_position(None);
    assert_eq!(
        unset,
        vec![
            WatchAction::RegisterPositionChanged,
            WatchAction::RegisterStatusChanged,
        ]
    );
    let explicit = locator.watch_position(Some(GeolocatorOptions { high_accuracy: false }));
    assert_eq!(explicit, unset);
    let mut provider = SimProvider::new();
    provider.run_watch_plan(&unset);
    assert!(!provider.high_accuracy_set);
}

#[test]
fn healthy_statuses_stay_silent() {
    let locator = Geolocator::new();
    let mut provider = SimProvider::new();
    provider.run_watch_plan(&locator.watch_position(None));
    provider.deliver_status(POSITION_STATUS_READY);
    provider.deliver_status(POSITION_STATUS_INITIALIZING);
    assert!(provider.status_reports.is_empty());
}

#[test]
fn each_degraded_status_reports_unavailable_once() {
    let locator = Geolocator::new();
    let mut provider = SimProvider::new();
    provider.run_watch_plan(&locator.watch_position(None));
    let degraded = [2, 3, 4, 5];
    for status in degraded {
        let before = provider.status_reports.len();
        provider.deliver_status(status);
        assert_eq!(provider.status_reports.len(), before + 1);
        assert_eq!(provider.status_reports[before], GeolocatorError::Unavailable);
    }
}

#[test]
fn dropped_position_event_does_not_reach_the_callback() {
    let locator = Geolocator::new();
    let mut provider = SimProvider::new();
    provider.run_watch_plan(&locator.watch_position(None));
    assert!(position_event_delivery(None).is_none());
    provider.deliver_fix(bare_fix(1.0, 1.0, 1.0));
    assert_eq!(provider.delivered_positions.len(), 1);
}

#[test]
fn stop_watch_deregisters_both_tokens_and_blocks_delivery() {
    let mut locator = Geolocator::new();
    let mut provider = SimProvider::new();
    let plan = locator.watch_position(Some(GeolocatorOptions { high_accuracy: true }));
    let (position_token, status_token) = provider.run_watch_plan(&plan);
    locator.complete_watch(position_token, status_token);
    provider.deliver_fix(bare_fix(5.0, 6.0, 7.0));
    assert_eq!(provider.delivered_positions.len(), 1);

    let stop = locator.clear_watch();
    assert_eq!(
        stop,
        vec![
            StopAction::RemovePositionChanged(position_token),
            StopAction::RemoveStatusChanged(status_token),
        ]
    );
    for action in stop {
        provider.apply_stop_action(action);
    }
    assert!(provider.position_registration.is_none());
    assert!(provider.status_registration.is_none());

    provider.deliver_fix(bare_fix(8.0, 9.0, 10.0));
    provider.deliver_status(3);
    assert_eq!(provider.delivered_positions.len(), 1);
    assert!(provider.status_reports.is_empty());
}

#[test]
fn scenario_grant_then_single_fix() {
    let locator = Geolocator::new();
    assert!(Geolocator::request_access(Ok(ACCESS_STATUS_ALLOWED)).is_ok());
    let fix = bare_fix(37.7749, -122.4194, 5.0);
    let coordinates = locator.current_position(Ok(fix)).unwrap();
    assert_eq!(f64::from_bits(coordinates.latitude), 37.7749);
    assert_eq!(f64::from_bits(coordinates.longitude), -122.4194);
    assert_eq!(f64::from_bits(coordinates.accuracy), 5.0);
    assert!(coordinates.altitude.is_none());
    assert!(coordinates.altitude_accuracy.is_none());
    assert!(coordinates.heading.is_none());
    assert!(coordinates.speed.is_none());
}

#[test]
fn native_error_classifies_by_its_code() {
    let generic = windows_result::Error::from_hresult(windows_result::HRESULT(HRESULT_GENERIC));
    assert!(matches!(
        classify_native_error(&generic),
        Some(GeolocatorError::Unknown)
    ));
    let denied =
        windows_result::Error::from_hresult(windows_result::HRESULT(HRESULT_ACCESS_DENIED));
    assert!(matches!(
        classify_native_error(&denied),
        Some(GeolocatorError::AccessDenied)
    ));
    let contradictory = windows_result::Error::from_hresult(windows_result::HRESULT(0));
    assert!(classify_native_error(&contradictory).is_none());
}
