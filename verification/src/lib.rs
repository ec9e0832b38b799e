//! Client-side helpers for talking to a chain node over a JSON-RPC style
//! protocol: a transport capability interface, a metadata fetcher that picks
//! a transport from a URL scheme and round-trips hex payloads, and a runtime
//! API resolver that binds a handle to a concrete block identifier.

pub mod codec;
pub mod fetch;
pub mod rpc;
pub mod runtime_api;
pub mod strutil;
pub mod stub;
