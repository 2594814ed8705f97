use vstd::prelude::*;

verus! {

/// Input to `ping`: an optional diagnostic string that the bridge must echo.
#[derive(Clone, Debug, PartialEq, Eq)]
pub struct PingRequest {
    pub value: Option<String>,
}

/// Output of `ping`: carries the echoed `value`, absent if it was absent.
#[derive(Clone, Debug, PartialEq, Eq)]
pub struct PingResponse {
    pub value: Option<String>,
}

/// Output of `set_dark`: a human-readable confirmation, or absence thereof.
#[derive(Clone, Debug, PartialEq, Eq)]
pub struct SetDarkResponse {
    pub result: Option<String>,
}

/// Output of `set_light`: a human-readable confirmation, or absence thereof.
#[derive(Clone, Debug, PartialEq, Eq)]
pub struct SetLightResponse {
    pub result: Option<String>,
}

/// The ways a bridge call can fail. Every error propagates synchronously to
/// the caller of the command surface: none is retried or swallowed.
#[derive(Clone, Debug, PartialEq, Eq)]
pub enum BridgeError {
    /// The caller invoked an operation the active bridge does not implement.
    UnsupportedOperation,
    /// The delegated bridge could not attach to its native handler during
    /// initialization, or a call was attempted before it was attached.
    RegistrationError(String),
    /// The native handler invocation failed; the message is whatever the
    /// native layer reported, treated as opaque.
    DelegationError(String),
}

} // verus!
