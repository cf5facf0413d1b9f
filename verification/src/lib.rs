//! Synthesizes fake network-topology fixtures: network interfaces (name +
//! IPv4 address) and routes (destination + optional egress interface), driven
//! by a declarative configuration and a template-based name renderer.
//!
//! The heart of the library is the monotonic IPv4 address allocator, which
//! never hands out an invalid or previously issued address, and the two
//! generators that consume it to build consistent, cross-referencing
//! topology objects.

pub mod address;
pub mod components;
pub mod config;
pub mod generate;
pub mod render;
