//! The lifecycle state of the supervised connection.

use vstd::prelude::*;

verus! {

/// Mathematical value of a [`ConnectionState`].
#[verifier::ext_equal]
pub enum StateModel {
    Unconnected,
    Connecting,
    Connected,
    Failed { reason: Seq<char> },
}

/// The state of the connection to the daemon. Exactly one value exists per
/// supervisor; it starts `Unconnected`, becomes `Connecting` when an attempt
/// is launched, and ends in `Connected` or `Failed` when the attempt
/// resolves. `Failed` carries the human-readable detail of the error.
#[derive(Debug)]
pub enum ConnectionState {
    Unconnected,
    Connecting,
    Connected,
    Failed(String),
}

impl View for ConnectionState {
    type V = StateModel;

    open spec fn view(&self) -> StateModel {
        match self {
            ConnectionState::Unconnected => StateModel::Unconnected,
            ConnectionState::Connecting => StateModel::Connecting,
            ConnectionState::Connected => StateModel::Connected,
            ConnectionState::Failed(reason) => StateModel::Failed { reason: reason@ },
        }
    }
}

/// A new attempt may be launched only from the initial state or after a
/// failed attempt: never while one is pending or after one has succeeded.
pub open spec fn may_start(state: StateModel) -> bool {
    state is Unconnected || state is Failed
}

impl ConnectionState {
    /// Whether an attempt is currently pending.
    pub fn is_connecting(&self) -> (connecting: bool)
        ensures
            connecting == (self@ is Connecting),
    {
        matches!(self, ConnectionState::Connecting)
    }

    /// Whether the connection is established.
    pub fn is_connected(&self) -> (connected: bool)
        ensures
            connected == (self@ is Connected),
    {
        matches!(self, ConnectionState::Connected)
    }

    /// The detail string of the failure, when the last attempt failed.
    pub fn failure_reason(&self) -> (reason: Option<&String>)
        ensures
            match reason {
                Some(detail) => self@ matches StateModel::Failed { reason: r } && detail@ == r,
                None => !(self@ is Failed),
            },
    {
        match self {
            ConnectionState::Failed(detail) => Some(detail),
            _ => None,
        }
    }
}

} // verus!
