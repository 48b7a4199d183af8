use caffeinate::dbus_sleep_inhibitor::{
    construction_error, release_request, DBusSystemSleepInhibitor,
};
use caffeinate::errors::{unsupported_hint, InhibitError, StrategyKind};

#[test]
fn release_request_with_no_lease_is_a_precondition_failure() {
    assert_eq!(release_request(None::<u32>), Err(InhibitError::Precondition));
    assert_eq!(release_request(None::<i32>), Err(InhibitError::Precondition));
}

#[test]
fn release_request_hands_the_stored_cookie_back_verbatim() {
    assert_eq!(release_request(Some(7u32)), Ok(7u32));
    assert_eq!(release_request(Some(u32::MAX)), Ok(u32::MAX));
    assert_eq!(release_request(Some(0u32)), Ok(0u32));
}

#[test]
fn release_request_hands_the_stored_descriptor_back_verbatim() {
    assert_eq!(release_request(Some(5i32)), Ok(5i32));
}

#[test]
fn rejected_probe_becomes_a_display_specific_error() {
    let e = construction_error(
        StrategyKind::Display,
        InhibitError::RemoteCall("request denied".to_string()),
    );
    assert_eq!(
        e,
        InhibitError::Unsupported(StrategyKind::Display, "request denied".to_string()),
    );
    assert_eq!(
        e.message(),
        "Inhibiting display sleep is unsupported: request denied",
    );
}

#[test]
fn rejected_probe_becomes_a_system_specific_error() {
    let e = construction_error(
        StrategyKind::SystemIdle,
        InhibitError::RemoteCall("not authorized".to_string()),
    );
    assert_eq!(
        e,
        InhibitError::Unsupported(StrategyKind::SystemIdle, "not authorized".to_string()),
    );
    assert_eq!(
        e.message(),
        "Inhibiting system idle sleep is unsupported: not authorized",
    );
}

#[test]
fn unsupported_hints_name_the_mode() {
    assert_eq!(
        unsupported_hint(StrategyKind::SystemIdle),
        "Inhibiting system idle sleep is unsupported",
    );
    assert_eq!(
        unsupported_hint(StrategyKind::Display),
        "Inhibiting display sleep is unsupported",
    );
}

#[test]
fn error_messages_are_the_documented_ones() {
    assert_eq!(InhibitError::Precondition.message(), "no active lease");
    assert_eq!(
        InhibitError::Connection("bus gone".to_string()).message(),
        "bus gone",
    );
    assert_eq!(
        InhibitError::RemoteCall("timed out".to_string()).message(),
        "timed out",
    );
}

#[test]
fn system_construction_fails_without_a_reachable_bus() {
    // This environment runs no system bus, so construction must report a
    // failure rather than hand out a strategy with nothing behind it.
    let r = DBusSystemSleepInhibitor::new();
    match r {
        Ok(_) => panic!("construction succeeded without a system bus"),
        Err(InhibitError::Connection(_)) => {},
        Err(InhibitError::Unsupported(kind, _)) => {
            assert_eq!(kind, StrategyKind::SystemIdle);
        },
        Err(e) => panic!("unexpected construction error: {:?}", e),
    }
}
