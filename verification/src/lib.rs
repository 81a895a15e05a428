//! A tunnel in front of an error-reporting ingestion service.
//!
//! A client submits an envelope: a header line of JSON followed by item lines
//! that are never interpreted. The header names the destination as a DSN. The
//! tunnel parses the header, checks the destination against the operator's
//! allow-lists and, when both checks pass, describes the request that carries
//! the bytes, as they came, to the destination's ingestion endpoint.
//!
//! Nothing in this crate sends or receives. [`server::handle`] takes a request
//! body to the forward that it asks for, [`server::conclude`] judges how the
//! sending went, and [`server::respond`] says what the client is answered.

pub mod config;
pub mod json;
pub mod dsn;
pub mod envelope;
pub mod header;
pub mod server;
