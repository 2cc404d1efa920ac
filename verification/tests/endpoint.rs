use torrential::endpoint::ConnectionEndpoint;
use torrential::endpoint::DEFAULT_TIMEOUT_MS;
use torrential::supervisor::Supervisor;

#[test]
fn endpoint_keeps_address_and_timeout() {
    let endpoint = ConnectionEndpoint::new("http://10.0.0.2:9091/rpc".to_string(), 250);
    assert_eq!(endpoint.address(), "http://10.0.0.2:9091/rpc");
    assert_eq!(endpoint.timeout_ms(), 250);
}

#[test]
fn default_endpoint_targets_the_local_daemon() {
    let endpoint = ConnectionEndpoint::default();
    assert_eq!(endpoint.address(), "http://127.0.0.1:9091/transmission/rpc");
    assert_eq!(endpoint.timeout_ms(), 1500);
    assert_eq!(DEFAULT_TIMEOUT_MS, 1500);
}

#[test]
fn supervisor_exposes_its_endpoint_unchanged() {
    let supervisor = Supervisor::new(ConnectionEndpoint::new("daemon.local:9091".to_string(), 800));
    assert_eq!(supervisor.endpoint().address(), "daemon.local:9091");
    assert_eq!(supervisor.endpoint().timeout_ms(), 800);
}
