//! The Discord gateway: opcodes, typed payloads, and the decisions of the
//! heartbeat task, the connection's event loop and the shard's reconnect
//! policy.  The sockets, channels and timers that carry them out live with
//! the application.

pub mod opcodes;
pub mod events;
pub mod heartbeat;
pub mod connection;
pub mod shard;
