//! The connection lifecycle decision: what to do after each observed state
//! change while waiting for the connection to the sound server to come up.
//!
//! The caller registers for state-change notifications before issuing the
//! connect request, then feeds every observed state to `connection_step`
//! until it decides; the two failure states are kept apart so the caller can
//! report whether the server rejected the connection or closed it.

use vstd::prelude::*;

verus! {

/// The states a connection to the sound server moves through.
#[derive(Clone, Copy, Debug, PartialEq, Eq, Structural)]
pub enum ConnectionState {
    Unconnected,
    Connecting,
    Authorizing,
    SettingName,
    Ready,
    Failed,
    Terminated,
}

/// Why a connection attempt ended without becoming ready.
#[derive(Clone, Copy, Debug, PartialEq, Eq, Structural)]
pub enum ConnectionError {
    Failed,
    Terminated,
}

/// What the caller should do after observing a connection state.
#[derive(Clone, Copy, Debug, PartialEq, Eq, Structural)]
pub enum ConnectionDecision {
    Wait,
    Connected,
    Fail(ConnectionError),
}

/// The decision for each state: keep waiting through the transient states,
/// stop on `Ready`, fail on the two terminal states.
pub open spec fn connection_step_spec(state: ConnectionState) -> ConnectionDecision {
    match state {
        ConnectionState::Ready => ConnectionDecision::Connected,
        ConnectionState::Failed => ConnectionDecision::Fail(ConnectionError::Failed),
        ConnectionState::Terminated => ConnectionDecision::Fail(ConnectionError::Terminated),
        _ => ConnectionDecision::Wait,
    }
}

/// Decide how to react to one observed connection state.
pub fn connection_step(state: ConnectionState) -> (r: ConnectionDecision)
    ensures
        r == connection_step_spec(state),
{
    match state {
        ConnectionState::Ready => ConnectionDecision::Connected,
        ConnectionState::Failed => ConnectionDecision::Fail(ConnectionError::Failed),
        ConnectionState::Terminated => ConnectionDecision::Fail(ConnectionError::Terminated),
        ConnectionState::Unconnected => ConnectionDecision::Wait,
        ConnectionState::Connecting => ConnectionDecision::Wait,
        ConnectionState::Authorizing => ConnectionDecision::Wait,
        ConnectionState::SettingName => ConnectionDecision::Wait,
    }
}

} // verus!
