use torrential::endpoint::ConnectionEndpoint;
use torrential::event::Severity;
use torrential::state::ConnectionState;
use torrential::supervisor::Supervisor;

fn local_stub_endpoint() -> ConnectionEndpoint {
    ConnectionEndpoint::new("127.0.0.1:9091".to_string(), 1500)
}

/// A scripted stand-in for the daemon transport: hands back the next
/// scripted outcome and counts how often it was invoked.
struct StubClient {
    outcomes: Vec<Result<(), String>>,
    invocations: usize,
}

impl StubClient {
    fn new(outcomes: Vec<Result<(), String>>) -> StubClient {
        StubClient { outcomes: outcomes.into_iter().rev().collect(), invocations: 0 }
    }

    fn connect(&mut self) -> Result<(), String> {
        self.invocations += 1;
        self.outcomes.pop().expect("stub script exhausted")
    }
}

/// Drives one step of the supervision loop: launches an attempt if the
/// supervisor allows it, and resolves it with the stub's next outcome.
fn drive(supervisor: &mut Supervisor, client: &mut StubClient) {
    if supervisor.connect() {
        let outcome = client.connect();
        if supervisor.is_pending() {
            supervisor.resolve(outcome);
        }
    }
}

#[test]
fn construction_is_inert_and_first_connect_launches() {
    let mut supervisor = Supervisor::new(local_stub_endpoint());
    assert!(matches!(supervisor.state(), ConnectionState::Unconnected));
    assert_eq!(supervisor.events().len(), 0);

    let launched = supervisor.connect();
    assert!(launched);
    assert!(matches!(supervisor.state(), ConnectionState::Connecting));
    assert_eq!(supervisor.events().len(), 0);
}

#[test]
fn connect_is_idempotent_while_pending() {
    let mut client = StubClient::new(vec![]);
    let mut supervisor = Supervisor::new(local_stub_endpoint());

    assert!(supervisor.connect());
    for _ in 0..5 {
        if supervisor.connect() {
            client.connect();
        }
    }
    assert_eq!(client.invocations, 0);
    assert!(matches!(supervisor.state(), ConnectionState::Connecting));
}

#[test]
fn repeated_launch_requests_invoke_the_client_once() {
    let mut client = StubClient::new(vec![Ok(())]);
    let mut supervisor = Supervisor::new(local_stub_endpoint());

    // Ask for a connection five times before the attempt resolves: only the
    // first request may reach the client.
    let mut pending_outcome: Option<Result<(), String>> = None;
    for _ in 0..5 {
        if supervisor.connect() {
            pending_outcome = Some(client.connect());
        }
    }
    assert_eq!(client.invocations, 1);
    supervisor.resolve(pending_outcome.expect("no attempt was launched"));
    assert!(matches!(supervisor.state(), ConnectionState::Connected));
}

#[test]
fn success_reports_connected_and_one_debug_event() {
    let mut client = StubClient::new(vec![Ok(())]);
    let mut supervisor = Supervisor::new(local_stub_endpoint());

    drive(&mut supervisor, &mut client);

    assert!(matches!(supervisor.state(), ConnectionState::Connected));
    assert_eq!(client.invocations, 1);
    let events = supervisor.events();
    assert_eq!(events.len(), 1);
    assert!(events[0].is_debug());
    assert_eq!(events[0].severity, Severity::Debug);
    assert_eq!(events[0].message, "Connected!");
}

#[test]
fn failure_reports_reason_and_one_warning_event() {
    let mut client = StubClient::new(vec![Err("refused".to_string())]);
    let mut supervisor = Supervisor::new(local_stub_endpoint());

    drive(&mut supervisor, &mut client);

    match supervisor.state() {
        ConnectionState::Failed(reason) => assert_eq!(reason, "refused"),
        other => panic!("expected a failed state, got {:?}", other),
    }
    assert_eq!(supervisor.state().failure_reason().map(String::as_str), Some("refused"));
    let events = supervisor.events();
    assert_eq!(events.len(), 1);
    assert!(events[0].is_warning());
    assert_eq!(events[0].severity, Severity::Warning);
    assert!(events[0].message.contains("refused"));
}

#[test]
fn unresolved_attempt_stays_connecting() {
    let mut supervisor = Supervisor::new(local_stub_endpoint());

    // The client never resolves: nothing is handed back to the supervisor,
    // and no number of further launch requests or queries moves the state.
    assert!(supervisor.connect());
    for _ in 0..10 {
        assert!(!supervisor.connect());
        assert!(matches!(supervisor.state(), ConnectionState::Connecting));
        assert!(supervisor.is_pending());
    }
    assert_eq!(supervisor.events().len(), 0);
}

#[test]
fn reattempt_after_failure_reaches_a_fresh_terminal_state() {
    let mut client = StubClient::new(vec![Err("unreachable host".to_string()), Ok(())]);
    let mut supervisor = Supervisor::new(local_stub_endpoint());

    drive(&mut supervisor, &mut client);
    assert!(matches!(supervisor.state(), ConnectionState::Failed(_)));

    // From `Failed`, connect() launches again and passes through Connecting.
    assert!(supervisor.connect());
    assert!(matches!(supervisor.state(), ConnectionState::Connecting));
    let outcome = client.connect();
    supervisor.resolve(outcome);

    assert!(matches!(supervisor.state(), ConnectionState::Connected));
    assert_eq!(client.invocations, 2);
    let events = supervisor.events();
    assert_eq!(events.len(), 2);
    assert!(events[0].is_warning());
    assert!(events[1].is_debug());
}

#[test]
fn reattempt_failure_carries_the_new_reason() {
    let mut client = StubClient::new(vec![
        Err("refused".to_string()),
        Err("timed out after 1500 ms".to_string()),
    ]);
    let mut supervisor = Supervisor::new(local_stub_endpoint());

    drive(&mut supervisor, &mut client);
    drive(&mut supervisor, &mut client);

    assert_eq!(
        supervisor.state().failure_reason().map(String::as_str),
        Some("timed out after 1500 ms"),
    );
    let events = supervisor.events();
    assert_eq!(events.len(), 2);
    assert_eq!(events[0].message, "refused");
    assert_eq!(events[1].message, "timed out after 1500 ms");
}

#[test]
fn connect_after_success_is_a_no_op() {
    let mut client = StubClient::new(vec![Ok(())]);
    let mut supervisor = Supervisor::new(local_stub_endpoint());

    drive(&mut supervisor, &mut client);
    assert!(matches!(supervisor.state(), ConnectionState::Connected));

    assert!(!supervisor.connect());
    assert!(matches!(supervisor.state(), ConnectionState::Connected));
    assert_eq!(supervisor.events().len(), 1);
    assert_eq!(client.invocations, 1);
}

#[test]
fn scenario_local_daemon_connects_after_short_delay() {
    let endpoint = ConnectionEndpoint::new("127.0.0.1:9091".to_string(), 1500);
    let started = std::time::Instant::now();
    let mut supervisor = Supervisor::new(endpoint);

    assert!(supervisor.connect());
    // The stub resolves `Ok` only once 10 ms have passed.
    while started.elapsed() < std::time::Duration::from_millis(10) {}
    supervisor.resolve(Ok(()));

    assert!(matches!(supervisor.state(), ConnectionState::Connected));
    let events = supervisor.events();
    assert_eq!(events.len(), 1);
    assert!(events[0].is_debug());
    assert!(started.elapsed() >= std::time::Duration::from_millis(10));
}
