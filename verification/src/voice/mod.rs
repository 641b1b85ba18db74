//! Discord voice: the DAVE end-to-end encryption state machine, and the
//! packet formats and decisions of a voice connection.

pub mod dave;
pub mod connection;
pub mod opus;
