use graph_processing::sockets::read_sockets::{reply_port, SocketId};
use graph_processing::sockets::socket::{NetworkPacket, MAX_DATAGRAM};

#[test]
fn socket_id_round_trips_through_event_data() {
    let id = SocketId::new(12);
    assert_eq!(id.value(), 12);
    assert_eq!(id.event_data(), 12u64);
    assert_eq!(SocketId::from_event_data(12), id);
}

#[test]
fn receive_buffer_is_zeroed_and_full_size() {
    let buf = NetworkPacket::receive_buffer();
    assert_eq!(buf.len(), MAX_DATAGRAM);
    assert_eq!(MAX_DATAGRAM, 1472);
    assert!(buf.iter().all(|b| *b == 0));
}

#[test]
fn received_packet_keeps_the_bytes_read() {
    let mut buf = NetworkPacket::receive_buffer();
    buf[0] = 1;
    buf[1] = 2;
    buf[2] = 3;
    let p = NetworkPacket::from_received(buf, 2);
    assert_eq!(p.data, vec![1, 2]);
    let q = NetworkPacket::from_received(vec![4, 5], 10);
    assert_eq!(q.data, vec![4, 5]);
    let empty = NetworkPacket::from_received(vec![4, 5], 0);
    assert!(empty.data.is_empty());
}

#[test]
fn network_packet_clones_its_bytes() {
    let p = NetworkPacket { data: vec![9, 8, 7] };
    let q = p.clone();
    assert_eq!(q.data, vec![9, 8, 7]);
}

#[test]
fn reply_port_adds_a_hundred() {
    assert_eq!(reply_port(2000), Some(2100));
    assert_eq!(reply_port(65435), Some(65535));
    assert_eq!(reply_port(65436), None);
}
