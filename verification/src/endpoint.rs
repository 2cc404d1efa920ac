//! The target daemon endpoint: an address and a connect timeout.

use vstd::prelude::*;

verus! {

/// Timeout applied to a connection attempt when none is given explicitly,
/// in milliseconds.
pub const DEFAULT_TIMEOUT_MS: u64 = 1500;

/// Address of the local daemon's RPC endpoint, used when no endpoint is
/// given explicitly.
pub open spec fn default_address() -> Seq<char> {
    "http://127.0.0.1:9091/transmission/rpc"@
}

/// Mathematical value of a [`ConnectionEndpoint`].
#[verifier::ext_equal]
pub struct EndpointModel {
    pub address: Seq<char>,
    pub timeout_ms: int,
}

/// An immutable description of the daemon to connect to: an address string
/// and the timeout bound, in milliseconds, for one connection attempt.
///
/// Supplied when the supervisor is constructed and never mutated afterwards.
pub struct ConnectionEndpoint {
    address: String,
    timeout_ms: u64,
}

impl View for ConnectionEndpoint {
    type V = EndpointModel;

    closed spec fn view(&self) -> EndpointModel {
        EndpointModel { address: self.address@, timeout_ms: self.timeout_ms as int }
    }
}

impl ConnectionEndpoint {
    /// Describes the daemon reachable at `address`, with each connection
    /// attempt bounded by `timeout_ms` milliseconds.
    pub fn new(address: String, timeout_ms: u64) -> (endpoint: ConnectionEndpoint)
        ensures
            endpoint@ == (EndpointModel { address: address@, timeout_ms: timeout_ms as int }),
    {
        ConnectionEndpoint { address, timeout_ms }
    }

    /// The daemon's address string.
    pub fn address(&self) -> (address: &String)
        ensures
            address@ == self@.address,
    {
        &self.address
    }

    /// The timeout bound for one connection attempt, in milliseconds.
    pub fn timeout_ms(&self) -> (timeout_ms: u64)
        ensures
            timeout_ms as int == self@.timeout_ms,
    {
        self.timeout_ms
    }
}

impl Default for ConnectionEndpoint {
    /// The local daemon endpoint with the default timeout.
    fn default() -> (endpoint: ConnectionEndpoint)
        ensures
            endpoint@ == (EndpointModel {
                address: default_address(),
                timeout_ms: DEFAULT_TIMEOUT_MS as int,
            }),
    {
        ConnectionEndpoint {
            address: String::from_str("http://127.0.0.1:9091/transmission/rpc"),
            timeout_ms: DEFAULT_TIMEOUT_MS,
        }
    }
}

} // verus!
