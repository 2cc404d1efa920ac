//! Diagnostic events: the observable record of how connection attempts end.

use vstd::prelude::*;

verus! {

/// Severity of a diagnostic event. Each connection attempt ends with exactly
/// one event: debug severity on success, warning severity on failure.
#[derive(Clone, Copy, PartialEq, Eq, Structural, Debug)]
pub enum Severity {
    Debug,
    Warning,
}

/// The message of the event recorded when an attempt succeeds.
pub open spec fn connected_message() -> Seq<char> {
    "Connected!"@
}

/// Mathematical value of a [`DiagnosticEvent`].
#[verifier::ext_equal]
pub struct EventModel {
    pub severity: Severity,
    pub message: Seq<char>,
}

/// The event recorded when an attempt succeeds.
pub open spec fn success_event() -> EventModel {
    EventModel { severity: Severity::Debug, message: connected_message() }
}

/// The event recorded when an attempt fails, carrying the human-readable
/// detail of the error.
pub open spec fn failure_event(reason: Seq<char>) -> EventModel {
    EventModel { severity: Severity::Warning, message: reason }
}

/// One diagnostic event, emitted when a connection attempt resolves. A
/// consumer that renders events may prefix the message by category, for
/// instance "Error connecting: " before a warning's detail.
#[derive(Debug)]
pub struct DiagnosticEvent {
    pub severity: Severity,
    pub message: String,
}

impl View for DiagnosticEvent {
    type V = EventModel;

    open spec fn view(&self) -> EventModel {
        EventModel { severity: self.severity, message: self.message@ }
    }
}

impl DiagnosticEvent {
    /// Whether this event was recorded at debug severity.
    pub fn is_debug(&self) -> (debug: bool)
        ensures
            debug == (self@.severity is Debug),
    {
        matches!(self.severity, Severity::Debug)
    }

    /// Whether this event was recorded at warning severity.
    pub fn is_warning(&self) -> (warning: bool)
        ensures
            warning == (self@.severity is Warning),
    {
        matches!(self.severity, Severity::Warning)
    }
}

} // verus!
