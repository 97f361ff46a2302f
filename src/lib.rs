//! Source-address translation core: a validated IPv6 prefix, the derivation
//! of a per-client source address inside it, the decisions of the socket
//! hook that binds an outbound socket to that address, and the per-request
//! policy that ties them together.

pub mod prefix;
pub mod derive;
pub mod binder;
pub mod gateway;
