//! The core of a client driver for Cassandra-compatible databases that speak
//! version 4 of the CQL binary protocol.
//!
//! Everything here is free of I/O: the wire codecs, the value model, the
//! statements, the routing of a statement to its replicas, the retry rules and
//! the state machines that drive a query or a paged query. A program around
//! this library owns the sockets and the tasks, performs the actions that the
//! state machines ask for and reports back what happened.

pub mod frame;
pub mod routing;
pub mod statement;
pub mod text;
pub mod transport;

pub use frame::response::cql_to_rust;
pub use statement::batch;
pub use statement::prepared_statement;
pub use statement::query;
pub use transport::session::{IntoTypedRows, Session, SessionConfig};
