//! A security proxy for JSON-RPC tool calls: it inspects each request that an
//! agent sends to a tool server and decides whether it may pass.

pub mod rule;
pub mod text;
pub mod json;
pub mod filter;
pub mod framing;
pub mod gateway;
pub mod laws;
