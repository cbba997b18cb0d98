//! A node of a unique-identifier service: it classifies inbound requests,
//! issues identifiers that it never repeats, and correlates every reply with
//! the request that caused it.
pub mod laws;
pub mod node;
mod primitives;
pub mod registry;
pub mod request;
pub mod token;
