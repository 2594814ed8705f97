use vstd::prelude::*;

use crate::delegated::{ping_op_name, DelegatedBridge, RelayCall};
use crate::in_process::{dark_ok_text, light_ok_text, InProcessBridge};
use crate::models::{BridgeError, PingRequest, PingResponse, SetDarkResponse, SetLightResponse};

verus! {

/// The one concrete bridge selected at startup for the runtime environment.
/// Callers see a single uniform contract; each operation is dispatched to
/// the variant held here.
#[derive(Clone, Debug, PartialEq, Eq)]
pub enum ActiveBridge {
    /// The capability is satisfied locally, synchronously.
    InProcess(InProcessBridge),
    /// The capability is satisfied by a registered native handler.
    Delegated(DelegatedBridge),
}

/// How a dispatched `ping` continues: resolved locally, or a named-operation
/// call for the host to relay to the native handler.
#[derive(Debug, PartialEq, Eq)]
pub enum PingDispatch {
    /// The active bridge resolved the call within this process.
    Done(Result<PingResponse, BridgeError>),
    /// The active bridge delegates: the host must perform this call and hand
    /// its outcome to [`DelegatedBridge::ping_result`].
    Relay(RelayCall),
}

/// Forwards the request verbatim to the active bridge's `ping`. No validation
/// is performed: the in-process bridge echoes the payload and never fails;
/// the delegated bridge hands the host one relay call carrying the payload.
pub fn ping(bridge: &ActiveBridge, payload: PingRequest) -> (d: PingDispatch)
    ensures
        (bridge is InProcess ==> (d matches PingDispatch::Done(r) && (r matches Ok(resp)
            && resp.value == payload.value))),
        (bridge matches ActiveBridge::Delegated(b) ==> (d matches PingDispatch::Relay(c)
            && c.handler == b.handler && c.op@ == ping_op_name() && c.payload == payload)),
{
    match bridge {
        ActiveBridge::InProcess(b) => PingDispatch::Done(b.ping(payload)),
        ActiveBridge::Delegated(b) => PingDispatch::Relay(b.ping_call(payload)),
    }
}

/// Forwards to the active bridge's `set_dark`: the in-process bridge always
/// confirms with `"dark ok"`; the delegated bridge does not implement this
/// optional operation, so the call fails with `UnsupportedOperation`.
pub fn set_dark(bridge: &ActiveBridge) -> (r: Result<SetDarkResponse, BridgeError>)
    ensures
        (bridge is InProcess ==> (r matches Ok(resp) && resp.result matches Some(s) && s@
            == dark_ok_text())),
        (bridge is Delegated ==> r == Err::<SetDarkResponse, BridgeError>(
            BridgeError::UnsupportedOperation,
        )),
{
    match bridge {
        ActiveBridge::InProcess(b) => b.set_dark(),
        ActiveBridge::Delegated(b) => b.set_dark(),
    }
}

/// Forwards to the active bridge's `set_light`: symmetric to [`set_dark`],
/// with the confirmation `"light ok"`.
pub fn set_light(bridge: &ActiveBridge) -> (r: Result<SetLightResponse, BridgeError>)
    ensures
        (bridge is InProcess ==> (r matches Ok(resp) && resp.result matches Some(s) && s@
            == light_ok_text())),
        (bridge is Delegated ==> r == Err::<SetLightResponse, BridgeError>(
            BridgeError::UnsupportedOperation,
        )),
{
    match bridge {
        ActiveBridge::InProcess(b) => b.set_light(),
        ActiveBridge::Delegated(b) => b.set_light(),
    }
}

} // verus!
