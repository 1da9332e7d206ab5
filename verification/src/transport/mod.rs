//! Transport-level logic: connection addresses and the reconnection state
//! machine.
pub mod error;
pub mod address;

pub mod reconnect;
