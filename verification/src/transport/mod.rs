//! What happens between a statement and its result: errors, retries, routing
//! and the state machines that drive a request.

pub mod cluster;
pub mod connection;
pub mod errors;
pub mod iterator;
pub mod load_balancing;
pub mod metrics;
pub mod node;
pub mod retry_policy;
pub mod session;
