//! A status-bar capability bridge: one logical API (`ping`, `set_dark`,
//! `set_light`) satisfied by different concrete implementations depending on
//! the runtime environment.
//!
//! The [`in_process`] bridge answers every call locally with deterministic,
//! side-effect-free results. The [`delegated`] bridge relays calls to a native
//! handler registered once, at initialization, by the surrounding host; the
//! host performs the actual native invocation and hands the outcome back as
//! plain values. The [`commands`] module is the uniform surface that
//! dispatches each operation to the active bridge.

/// The command surface: dispatch over the active bridge.
pub mod commands;
/// The delegated bridge and its registration lifecycle.
pub mod delegated;
/// The in-process bridge: local, deterministic results.
pub mod in_process;
/// Request, response and error shapes shared by every bridge.
pub mod models;
