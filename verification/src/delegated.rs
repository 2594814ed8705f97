use vstd::prelude::*;

use crate::models::{BridgeError, PingRequest, PingResponse, SetDarkResponse, SetLightResponse};
use vstd::string::StringExecFns;

verus! {

/// The guard failure text: a call was attempted before the registration
/// reached `Ready` (or after it failed).
pub open spec fn not_registered_text() -> Seq<char> {
    "native handler not registered"@
}

/// The name of the one native entry point the delegated bridge invokes.
pub open spec fn ping_op_name() -> Seq<char> {
    "ping"@
}

/// The bridge variant that relays every call to a native handler registered
/// by the host. A value of this type exists only after registration
/// succeeded: unreadiness is unrepresentable here.
#[derive(Clone, Copy, Debug, PartialEq, Eq)]
pub struct DelegatedBridge {
    /// The host's reference to the registered native handler, acquired once
    /// during initialization and read-only thereafter.
    pub handler: u64,
}

/// A named-operation call to relay to the native handler. The host performs
/// the invocation and hands the outcome back to [`DelegatedBridge::ping_result`].
#[derive(Clone, Debug, PartialEq, Eq)]
pub struct RelayCall {
    /// Which registered handler to invoke.
    pub handler: u64,
    /// The entry point to invoke on it.
    pub op: String,
    /// The payload to carry, verbatim.
    pub payload: PingRequest,
}

/// The one-time registration lifecycle of a delegated bridge instance:
/// `Uninitialized -> Registering -> Ready` on success, or
/// `Uninitialized -> Registering -> Failed` (terminal, no retry).
#[derive(Clone, Debug, PartialEq, Eq)]
pub enum Registration {
    /// No registration attempt has started.
    Uninitialized,
    /// A registration attempt is in flight with the host.
    Registering,
    /// Registration succeeded: the ready, immutable bridge is held here.
    Ready(DelegatedBridge),
    /// Registration failed; the failure reason reported by the host.
    Failed(String),
}

impl Registration {
    /// A fresh instance, before any registration attempt.
    pub fn new() -> (r: Registration)
        ensures
            r is Uninitialized,
    {
        Registration::Uninitialized
    }

    /// Starts the one registration attempt.
    pub fn begin(&mut self)
        requires
            *old(self) is Uninitialized,
        ensures
            *final(self) is Registering,
    {
        *self = Registration::Registering;
    }

    /// Records the host's registration outcome: a handler reference on
    /// success, or the host's rejection reason. Failure is terminal for this
    /// instance and is surfaced, never swallowed.
    pub fn complete(&mut self, outcome: Result<u64, String>) -> (r: Result<(), BridgeError>)
        requires
            *old(self) is Registering,
        ensures
            (outcome matches Ok(h) ==> *final(self) == Registration::Ready(
                DelegatedBridge { handler: h },
            ) && r is Ok),
            (outcome matches Err(m) ==> *final(self) == Registration::Failed(m) && r == Err::<
                (),
                BridgeError,
            >(BridgeError::RegistrationError(m))),
    {
        match outcome {
            Ok(h) => {
                *self = Registration::Ready(DelegatedBridge { handler: h });
                Ok(())
            },
            Err(m) => {
                *self = Registration::Failed(m.clone());
                Err(BridgeError::RegistrationError(m))
            },
        }
    }

    /// Guards every call: yields the bridge only once the registration is
    /// `Ready`. Before that transition every attempt fails deterministically,
    /// with a registration error of this layer, never with a native-layer
    /// error.
    pub fn bridge(&self) -> (r: Result<&DelegatedBridge, BridgeError>)
        ensures
            (self matches Registration::Ready(b) ==> r matches Ok(rb) && *rb == b),
            (!(self is Ready) ==> (r matches Err(e) && e matches BridgeError::RegistrationError(m)
                && m@ == not_registered_text())),
    {
        match self {
            Registration::Ready(b) => Ok(b),
            _ => Err(
                BridgeError::RegistrationError(String::from_str("native handler not registered")),
            ),
        }
    }
}

/// Runs the whole registration lifecycle at once, as the host does at plugin
/// initialization: it returns a ready, immutable bridge, or the registration
/// error — no bridge instance is produced on failure.
pub fn init(outcome: Result<u64, String>) -> (r: Result<DelegatedBridge, BridgeError>)
    ensures
        (outcome matches Ok(h) ==> r == Ok::<DelegatedBridge, BridgeError>(
            DelegatedBridge { handler: h },
        )),
        (outcome matches Err(m) ==> r == Err::<DelegatedBridge, BridgeError>(
            BridgeError::RegistrationError(m),
        )),
{
    let mut registration = Registration::new();
    registration.begin();
    match registration.complete(outcome) {
        Ok(()) => {
            match registration.bridge() {
                Ok(b) => Ok(*b),
                Err(e) => Err(e),
            }
        },
        Err(e) => Err(e),
    }
}

impl DelegatedBridge {
    /// The outbound half of a relayed `ping`: the named-operation call to
    /// hand to the host, carrying the payload verbatim to the `"ping"` entry
    /// point of the registered handler.
    pub fn ping_call(&self, payload: PingRequest) -> (c: RelayCall)
        ensures
            c.handler == self.handler,
            c.op@ == ping_op_name(),
            c.payload == payload,
    {
        RelayCall { handler: self.handler, op: String::from_str("ping"), payload }
    }

    /// The inbound half of a relayed `ping`: whatever response the native
    /// handler produced is returned unchanged to the caller, and whatever
    /// failure the native layer reported is wrapped as a delegation error —
    /// verbatim, with no retry and no local recovery.
    pub fn ping_result(&self, native: Result<PingResponse, String>) -> (r: Result<
        PingResponse,
        BridgeError,
    >)
        ensures
            (native matches Ok(resp) ==> r == Ok::<PingResponse, BridgeError>(resp)),
            (native matches Err(m) ==> r == Err::<PingResponse, BridgeError>(
                BridgeError::DelegationError(m),
            )),
    {
        match native {
            Ok(resp) => Ok(resp),
            Err(m) => Err(BridgeError::DelegationError(m)),
        }
    }

    /// Not wired to the native handler in this variant: always reports the
    /// operation as unsupported, never a crash or a silent no-op.
    pub fn set_dark(&self) -> (r: Result<SetDarkResponse, BridgeError>)
        ensures
            r == Err::<SetDarkResponse, BridgeError>(BridgeError::UnsupportedOperation),
    {
        Err(BridgeError::UnsupportedOperation)
    }

    /// Not wired to the native handler in this variant: always reports the
    /// operation as unsupported, never a crash or a silent no-op.
    pub fn set_light(&self) -> (r: Result<SetLightResponse, BridgeError>)
        ensures
            r == Err::<SetLightResponse, BridgeError>(BridgeError::UnsupportedOperation),
    {
        Err(BridgeError::UnsupportedOperation)
    }
}

} // verus!
