//! Session gateway for a per-user sandboxed shell service reachable over SSH.
//!
//! The crate holds the protocol-level logic of the gateway: the per-connection
//! session and channel state machine, the authentication flow, the planning of
//! container-engine calls for attaching a channel to a process inside the
//! user's container, and the output-bridge decisions. The asynchronous SSH and
//! container-engine plumbing around it performs the calls that these modules
//! plan.

pub mod adapter;
pub mod auth;
pub mod bridge;
pub mod config;
pub mod engine;
pub mod keys;
pub mod ringbuf;
pub mod session;
pub mod text;
pub mod validate;
pub mod web;
