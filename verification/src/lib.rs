//! Core logic of a live-streaming super-chat relay server.
//!
//! The crate verifies the control-plane logic: client admission and
//! broadcast bookkeeping, the per-connection session protocol, the wire
//! codec for chat messages, history pagination, the server lifecycle,
//! the tunnel supervisor's restart policy, and the NAT probe decisions.
//! All I/O (sockets, subprocesses, the database) stays outside, behind
//! thin adapters that hand this crate plain values.

pub mod commands;
pub mod decode;
pub mod encode;
pub mod history;
pub mod json;
pub mod lifecycle;
pub mod messages;
pub mod prober;
pub mod registry;
pub mod roundtrip;
pub mod session;
pub mod strutil;
pub mod tunnel;
pub mod wallet;
pub mod wire;
