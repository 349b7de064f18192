//! Verified protocol layer for networked light strips that take one
//! JSON command per UDP datagram.

pub mod number;
pub mod types;
pub mod wire;
pub mod client;
