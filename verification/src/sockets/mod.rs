pub mod read_sockets;
pub mod socket;
