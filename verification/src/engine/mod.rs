pub mod channel;
pub mod graph;
pub mod node_table;
pub mod spin;
pub mod spin_rw;
