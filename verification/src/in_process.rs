use vstd::prelude::*;

use crate::models::{BridgeError, PingRequest, PingResponse, SetDarkResponse, SetLightResponse};
use vstd::string::StringExecFns;

verus! {

/// The confirmation text that `set_dark` always returns.
pub open spec fn dark_ok_text() -> Seq<char> {
    "dark ok"@
}

/// The confirmation text that `set_light` always returns.
pub open spec fn light_ok_text() -> Seq<char> {
    "light ok"@
}

/// The bridge variant that satisfies the capability entirely within the
/// calling process: every operation is synchronous, deterministic and
/// side-effect-free, and none can fail.
#[derive(Clone, Debug, PartialEq, Eq)]
pub struct InProcessBridge {}

/// Produces the in-process bridge. Unlike delegated registration this can
/// never fail: the capability needs nothing from the host environment.
pub fn init() -> (b: InProcessBridge) {
    InProcessBridge {}
}

impl InProcessBridge {
    /// Echoes the request: the response `value` equals the request `value`
    /// exactly, including an absent `value` passing through as absent.
    pub fn ping(&self, payload: PingRequest) -> (r: Result<PingResponse, BridgeError>)
        ensures
            (r matches Ok(resp) && resp.value == payload.value),
    {
        Ok(PingResponse { value: payload.value })
    }

    /// Always confirms with `"dark ok"`; never fails.
    pub fn set_dark(&self) -> (r: Result<SetDarkResponse, BridgeError>)
        ensures
            (r matches Ok(resp) && resp.result matches Some(s) && s@ == dark_ok_text()),
    {
        Ok(SetDarkResponse { result: Some(String::from_str("dark ok")) })
    }

    /// Always confirms with `"light ok"`; never fails.
    pub fn set_light(&self) -> (r: Result<SetLightResponse, BridgeError>)
        ensures
            (r matches Ok(resp) && resp.result matches Some(s) && s@ == light_ok_text()),
    {
        Ok(SetLightResponse { result: Some(String::from_str("light ok")) })
    }
}

} // verus!
