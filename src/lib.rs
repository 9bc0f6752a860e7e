//! A JSON-RPC 2.0 protocol engine: wire types, request classification,
//! a method registry with aliases, a dispatcher with the batch rules,
//! middleware, the response writer, and what transports decide: framing,
//! the HTTP rules, per-peer push queues and start/stop guards.

pub mod types;
pub mod text;
pub mod request;
pub mod json;
pub mod registry;
pub mod io;
pub mod middleware;
pub mod params;
pub mod framing;
pub mod queue;
pub mod http;
pub mod lifecycle;
