//! A user-space TCP connection engine: sequence arithmetic, the per-connection
//! control block with its sender and receiver halves, the active-open
//! handshake and the close protocol, each as a pure state machine that the
//! surrounding runtime drives with events.

pub mod active_open;
pub mod closer;
pub mod control_block;
pub mod fail;
pub mod receiver;
pub mod sender;
pub mod segment;
pub mod sequence;
pub mod watched;
