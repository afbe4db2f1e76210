//! A minimal HTTP service model: a fixed route table, a handful of static
//! informational handlers, and one proxy handler that relays the body of an
//! upstream IP-lookup call.
//!
//! The library holds the pure, verified part of the service: routing and the
//! construction of every response. The surrounding binary performs the actual
//! network I/O (serving requests, issuing the upstream call) and hands the
//! library plain values.

pub mod handlers;
pub mod response;
pub mod routes;
