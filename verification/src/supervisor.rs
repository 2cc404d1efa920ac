//! The connection supervisor: owns the endpoint, the connection state and the
//! diagnostic record, and drives the one attempt that may be in flight.
//!
//! The supervisor makes no network call itself. The surrounding program asks
//! it whether an attempt may be launched ([`Supervisor::connect`]), performs
//! the call against the endpoint when it may, and hands the outcome back
//! ([`Supervisor::resolve`]). Every decision and every transition is the
//! supervisor's; the transition functions below state them exactly.

use vstd::prelude::*;

use crate::endpoint::ConnectionEndpoint;
use crate::endpoint::EndpointModel;
use crate::event::DiagnosticEvent;
use crate::event::EventModel;
use crate::event::Severity;
use crate::event::failure_event;
use crate::event::success_event;
use crate::state::ConnectionState;
use crate::state::StateModel;
use crate::state::may_start;

verus! {

/// Mathematical value of a [`Supervisor`]: the endpoint it was built with,
/// the current connection state, and the diagnostic events recorded so far,
/// oldest first.
#[verifier::ext_equal]
pub struct SupervisorModel {
    pub endpoint: EndpointModel,
    pub state: StateModel,
    pub events: Seq<EventModel>,
}

/// The model of a freshly constructed supervisor: unconnected, with no
/// event recorded.
pub open spec fn initial(endpoint: EndpointModel) -> SupervisorModel {
    SupervisorModel { endpoint, state: StateModel::Unconnected, events: Seq::empty() }
}

/// Whether a call of `connect` launches an attempt: only from the initial
/// state or after a failure. While an attempt is pending, or once connected,
/// `connect` changes nothing.
pub open spec fn connect_launches(m: SupervisorModel) -> bool {
    may_start(m.state)
}

/// The supervisor after a call of `connect`: `Connecting` when an attempt is
/// launched, unchanged otherwise.
pub open spec fn after_connect(m: SupervisorModel) -> SupervisorModel {
    if connect_launches(m) {
        SupervisorModel { state: StateModel::Connecting, ..m }
    } else {
        m
    }
}

/// The event recorded when an attempt resolves with `outcome`.
pub open spec fn resolution_event(outcome: Result<(), Seq<char>>) -> EventModel {
    match outcome {
        Ok(_) => success_event(),
        Err(reason) => failure_event(reason),
    }
}

/// The supervisor after the pending attempt resolves with `outcome`:
/// `Connected` on success, `Failed` with the error's detail on failure, and
/// in either case exactly one event appended to the diagnostic record.
pub open spec fn after_resolve(m: SupervisorModel, outcome: Result<(), Seq<char>>) -> SupervisorModel {
    SupervisorModel {
        state: match outcome {
            Ok(_) => StateModel::Connected,
            Err(reason) => StateModel::Failed { reason },
        },
        events: m.events.push(resolution_event(outcome)),
        ..m
    }
}

/// How many attempts have been launched on a supervisor: one per recorded
/// event (each attempt, once resolved, records exactly one), plus the one
/// still pending, if any.
pub open spec fn attempts_started(m: SupervisorModel) -> nat {
    m.events.len() + if m.state is Connecting { 1nat } else { 0nat }
}

/// The state agrees with the diagnostic record: nothing is recorded before
/// the first attempt resolves, and a terminal state matches the event its
/// resolution recorded.
pub open spec fn wf(m: SupervisorModel) -> bool {
    &&& m.state is Unconnected ==> m.events.len() == 0
    &&& m.state is Connected ==> m.events.len() >= 1 && m.events.last() == success_event()
    &&& m.state matches StateModel::Failed { reason } ==> m.events.len() >= 1
        && m.events.last() == failure_event(reason)
}

/// The mathematical value of the outcome the transport hands back: `Ok` when
/// the connection was established, `Err` with the human-readable detail of
/// the error otherwise. Transport errors, timeouts and handshake failures
/// all arrive this way, told apart only by their detail string.
pub open spec fn outcome_model(outcome: Result<(), String>) -> Result<(), Seq<char>> {
    match outcome {
        Ok(_) => Ok(()),
        Err(reason) => Err(reason@),
    }
}

/// The mathematical value of a recorded sequence of events.
pub open spec fn events_model(events: Seq<DiagnosticEvent>) -> Seq<EventModel> {
    events.map_values(|event: DiagnosticEvent| event@)
}

/// Supervises the RPC session to the torrent daemon: owns the endpoint, the
/// connection state, and the record of diagnostic events, and enforces that
/// at most one connection attempt is in flight at a time.
pub struct Supervisor {
    endpoint: ConnectionEndpoint,
    state: ConnectionState,
    events: Vec<DiagnosticEvent>,
}

impl View for Supervisor {
    type V = SupervisorModel;

    closed spec fn view(&self) -> SupervisorModel {
        SupervisorModel {
            endpoint: self.endpoint@,
            state: self.state@,
            events: events_model(self.events@),
        }
    }
}

impl Supervisor {
    /// Builds an inert supervisor for `endpoint`: unconnected, no event
    /// recorded, no I/O performed. Startup code launches the first attempt
    /// by calling [`Supervisor::connect`] right after construction.
    pub fn new(endpoint: ConnectionEndpoint) -> (supervisor: Supervisor)
        ensures
            supervisor@ == initial(endpoint@),
    {
        Supervisor { endpoint, state: ConnectionState::Unconnected, events: Vec::new() }
    }

    /// Asks to launch a connection attempt. Returns whether one was
    /// launched: `true`, with the state moved to `Connecting`, only from the
    /// initial state or after a failure. While an attempt is pending, or
    /// once connected, the call is a no-op, so repeated calls can never put
    /// two attempts in flight.
    ///
    /// When `true` is returned, the caller performs the connection against
    /// [`Supervisor::endpoint`] and reports back via [`Supervisor::resolve`].
    pub fn connect(&mut self) -> (launched: bool)
        ensures
            final(self)@ == after_connect(old(self)@),
            launched == connect_launches(old(self)@),
    {
        let launched = match &self.state {
            ConnectionState::Unconnected => true,
            ConnectionState::Failed(_) => true,
            _ => false,
        };
        if launched {
            self.state = ConnectionState::Connecting;
        }
        launched
    }

    /// Records the outcome of the pending attempt: `Connected` on success,
    /// `Failed` with the error's detail on failure. Exactly one diagnostic
    /// event is appended either way — debug severity carrying
    /// "Connected!", or warning severity carrying the detail. The error is
    /// fully contained: nothing propagates to the caller, who learns of the
    /// failure only through [`Supervisor::state`] and the recorded event.
    pub fn resolve(&mut self, outcome: Result<(), String>)
        requires
            old(self)@.state is Connecting,
        ensures
            final(self)@ == after_resolve(old(self)@, outcome_model(outcome)),
    {
        match outcome {
            Ok(_) => {
                self.state = ConnectionState::Connected;
                self.events.push(DiagnosticEvent {
                    severity: Severity::Debug,
                    message: String::from_str("Connected!"),
                });
                proof {
                    assert(self@.events =~= old(self)@.events.push(success_event()));
                }
            },
            Err(reason) => {
                let ghost reason_model: Seq<char> = reason@;
                let message = reason.clone();
                self.state = ConnectionState::Failed(reason);
                self.events.push(DiagnosticEvent { severity: Severity::Warning, message });
                proof {
                    assert(self@.events =~= old(self)@.events.push(failure_event(reason_model)));
                }
            },
        }
    }

    /// The current connection state. Never blocks and never changes the
    /// supervisor, so it is safe to call at any time, also while an attempt
    /// is pending.
    pub fn state(&self) -> (state: &ConnectionState)
        ensures
            state@ == self@.state,
    {
        &self.state
    }

    /// Whether an attempt is currently pending. Exactly then a call of
    /// [`Supervisor::resolve`] is owed.
    pub fn is_pending(&self) -> (pending: bool)
        ensures
            pending == (self@.state is Connecting),
    {
        self.state.is_connecting()
    }

    /// The endpoint this supervisor connects to.
    pub fn endpoint(&self) -> (endpoint: &ConnectionEndpoint)
        ensures
            endpoint@ == self@.endpoint,
    {
        &self.endpoint
    }

    /// The diagnostic events recorded so far, oldest first: one per resolved
    /// attempt.
    pub fn events(&self) -> (events: &Vec<DiagnosticEvent>)
        ensures
            events_model(events@) == self@.events,
    {
        &self.events
    }
}

} // verus!
