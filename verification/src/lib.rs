//! A packet-forwarding graph engine: packets are routed through a set of nodes that
//! consume them and may emit further packets for other nodes.
pub mod engine;
pub mod sockets;
