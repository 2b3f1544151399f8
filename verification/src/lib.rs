//! Discovery of peers on the local network by UDP multicast.
//!
//! The library holds the rules of the protocol: what a node announces, how a
//! message looks on the wire, which messages a node believes, how long it
//! remembers a peer, and what it does about a peer it has found. It performs no
//! input or output: its functions take what was read and say what to do next.

pub mod connect;
pub mod connectable;
pub mod context;
pub mod discovery_manager;
pub mod laws;
pub mod listener;
pub mod message;
pub mod multicast_discovery;
pub mod peers;
pub mod socket_setup;
pub mod text;
pub mod wire;
