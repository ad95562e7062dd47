//! Verified core of a UDP session server: the session table, the routing of
//! inbound packets to handshake and heartbeat handling, the decisions of the
//! non-blocking dispatch loop, and the server's configuration defaults.

pub mod addr;
pub mod config;
pub mod dispatch;
pub mod errors;
pub mod key;
pub mod network;
pub mod packet;
pub mod registry;
