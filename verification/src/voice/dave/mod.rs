//! DAVE (Discord Audio & Video End-to-End Encryption): the protocol state
//! machine, key sets, and the per-channel session.

pub mod keys;
pub mod protocol;
pub mod session;
