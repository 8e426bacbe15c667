//! The tagged union of everything that can happen, and the operator
//! actions the input producer normalizes keys into.
//!
//! Events are the sole channel of causality into the dispatcher: the
//! ticker, the input poller, the transport-event forwarder and the
//! pairing-authority handler each only send values of these types.

use vstd::prelude::*;

use crate::agent::AgentEvent;
use crate::devices::Device;

verus! {

/// One operator intention, normalized from a key press.
#[derive(Debug, Clone, Copy, PartialEq, Eq, Structural)]
pub enum UserAction {
    TriggerScan,
    Connect,
    Disconnect,
    MoveUp,
    MoveDown,
    Confirm,
    Quit,
}

/// One change reported by the transport adapter, already resolved to a
/// full device record.
#[derive(Debug, Clone)]
pub enum AdapterEvent {
    Discovered(Device),
    Updated(Device),
    Connecting(Device),
    Disconnecting(Device),
    Connected(Device),
    Disconnected(Device),
    FailedToConnect(Device),
    FailedToDisconnect(Device),
}

/// One event for the dispatcher, from whichever producer saw it first.
pub enum AppEvent {
    Input(UserAction),
    Tick,
    Adapter(AdapterEvent),
    Agent(AgentEvent),
    Quit,
}

} // verus!
