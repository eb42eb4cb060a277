//! A relay for line-protocol measurements: datagrams come in, are queued, and
//! leave one by one as authenticated write requests to a time-series database.
//!
//! The library holds every decision of the relay and performs no I/O itself:
//! a caller reads the socket and sends the requests that the library hands out.

pub mod client;
pub mod config;
pub mod error;
pub mod pipeline;
pub mod precision;
pub mod queue;
pub mod receiver;
pub mod transport;
pub mod worker;

pub use client::InfClient;
pub use error::InfError;
pub use precision::Precision;
