//! Connection-lifecycle supervisor for an RPC session to a torrent daemon.
//!
//! The supervisor owns a connection endpoint and the state of the one
//! connection attempt that may be in flight at a time. It decides when an
//! attempt may be launched and how its outcome is recorded; the surrounding
//! program performs the actual network call and hands the outcome back.

pub mod endpoint;
pub mod event;
pub mod state;
pub mod supervisor;
pub mod laws;
