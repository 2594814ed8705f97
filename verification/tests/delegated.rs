use statusbar_bridge::delegated::{self, DelegatedBridge, Registration};
use statusbar_bridge::models::{BridgeError, PingRequest, PingResponse};

#[test]
fn registration_failure_yields_error_and_no_bridge() {
    let outcome: Result<u64, String> = Err("no matching native handler".to_string());
    let result = delegated::init(outcome);
    assert_eq!(
        result,
        Err(BridgeError::RegistrationError("no matching native handler".to_string()))
    );
}

#[test]
fn registration_success_yields_ready_bridge() {
    let result = delegated::init(Ok(7));
    assert_eq!(result, Ok(DelegatedBridge { handler: 7 }));
}

#[test]
fn relay_round_trip_returns_native_response_unchanged() {
    let bridge = delegated::init(Ok(1)).expect("registration succeeded");
    let call = bridge.ping_call(PingRequest { value: Some("x".to_string()) });
    assert_eq!(call.handler, 1);
    assert_eq!(call.op, "ping".to_string());
    assert_eq!(call.payload.value, Some("x".to_string()));

    // The native handler echoes the payload; its response comes back verbatim.
    let native = Ok(PingResponse { value: call.payload.value.clone() });
    let result = bridge.ping_result(native);
    assert_eq!(result, Ok(PingResponse { value: Some("x".to_string()) }));
}

#[test]
fn native_failure_surfaces_as_delegation_error() {
    let bridge = delegated::init(Ok(1)).expect("registration succeeded");
    let native: Result<PingResponse, String> = Err("handler crashed".to_string());
    let result = bridge.ping_result(native);
    assert_eq!(result, Err(BridgeError::DelegationError("handler crashed".to_string())));
}

#[test]
fn delegated_set_dark_is_unsupported() {
    let bridge = delegated::init(Ok(2)).expect("registration succeeded");
    assert_eq!(bridge.set_dark(), Err(BridgeError::UnsupportedOperation));
}

#[test]
fn delegated_set_light_is_unsupported() {
    let bridge = delegated::init(Ok(2)).expect("registration succeeded");
    assert_eq!(bridge.set_light(), Err(BridgeError::UnsupportedOperation));
}

#[test]
fn calls_before_ready_fail_deterministically() {
    let mut registration = Registration::new();
    assert_eq!(
        registration.bridge(),
        Err(BridgeError::RegistrationError("native handler not registered".to_string()))
    );

    registration.begin();
    assert!(matches!(registration.bridge(), Err(BridgeError::RegistrationError(_))));
    assert_eq!(
        registration.bridge(),
        Err(BridgeError::RegistrationError("native handler not registered".to_string()))
    );
}

#[test]
fn calls_after_failed_registration_fail_deterministically() {
    let mut registration = Registration::new();
    registration.begin();
    let completed = registration.complete(Err("rejected by host".to_string()));
    assert_eq!(
        completed,
        Err(BridgeError::RegistrationError("rejected by host".to_string()))
    );
    // The instance is terminally failed: attempts do not report the native
    // rejection, they report this layer's deterministic guard error.
    assert_eq!(
        registration.bridge(),
        Err(BridgeError::RegistrationError("native handler not registered".to_string()))
    );
}

#[test]
fn registration_lifecycle_reaches_ready() {
    let mut registration = Registration::new();
    assert!(matches!(registration, Registration::Uninitialized));
    registration.begin();
    assert!(matches!(registration, Registration::Registering));
    let completed = registration.complete(Ok(9));
    assert_eq!(completed, Ok(()));
    assert!(matches!(registration, Registration::Ready(DelegatedBridge { handler: 9 })));
    let bridge = registration.bridge().expect("ready registration accepts calls");
    assert_eq!(bridge.handler, 9);
}
