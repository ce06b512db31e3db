use graph_processing::engine::graph::{
    GraphPacketQueue, LocalPacketQueue, Node, NodeId, WorkPacket, AcceptWork, QUEUE_CAPACITY,
};

fn take<P: Send>(q: &GraphPacketQueue<P>, worker_id: usize) -> Option<WorkPacket<P>> {
    q.try_pop(worker_id).0
}

#[test]
fn node_id_keeps_its_value() {
    let id = NodeId::new(42);
    assert_eq!(id.value(), 42);
    assert_eq!(id, NodeId::new(42));
    assert_ne!(id, NodeId::new(43));
}

#[test]
fn work_packet_parts() {
    let p = WorkPacket::new(NodeId::new(7), "payload");
    assert_eq!(p.for_node(), NodeId::new(7));
    let (node, data) = p.into_parts();
    assert_eq!(node, NodeId::new(7));
    assert_eq!(data, "payload");
}

#[test]
fn local_queue_is_first_in_first_out() {
    let mut q = LocalPacketQueue::new();
    assert_eq!(q.len(), 0);
    q.push(NodeId::new(1), 10u32);
    q.push(NodeId::new(2), 20u32);
    q.push(NodeId::new(1), 30u32);
    assert_eq!(q.len(), 3);
    let a = q.pop().unwrap().into_parts();
    let b = q.pop().unwrap().into_parts();
    let c = q.pop().unwrap().into_parts();
    assert_eq!(a, (NodeId::new(1), 10));
    assert_eq!(b, (NodeId::new(2), 20));
    assert_eq!(c, (NodeId::new(1), 30));
    assert!(q.pop().is_none());
    assert_eq!(q.len(), 0);
}

#[test]
fn local_queue_pop_on_empty_is_none() {
    let mut q: LocalPacketQueue<u8> = LocalPacketQueue::new();
    assert!(q.pop().is_none());
    q.push(NodeId::new(0), 1);
    assert!(q.pop().is_some());
    assert!(q.pop().is_none());
}

#[test]
fn new_graph_queue_has_one_queue() {
    let q: GraphPacketQueue<u32> = GraphPacketQueue::new();
    assert_eq!(q.num_queues(), 1);
    assert_eq!(q.queue_for(NodeId::new(12345)), 0);
    assert_eq!(q.own_queue_index(99), 0);
}

#[test]
fn queue_for_is_node_modulo_queue_count() {
    let mut q: GraphPacketQueue<u32> = GraphPacketQueue::new();
    q.add_queues(4);
    assert_eq!(q.num_queues(), 4);
    assert_eq!(q.queue_for(NodeId::new(0)), 0);
    assert_eq!(q.queue_for(NodeId::new(5)), 1);
    assert_eq!(q.queue_for(NodeId::new(11)), 3);
    assert_eq!(q.own_queue_index(6), 2);
}

#[test]
fn add_queues_only_grows() {
    let mut q: GraphPacketQueue<u32> = GraphPacketQueue::new();
    q.add_queues(3);
    assert_eq!(q.num_queues(), 3);
    q.add_queues(2);
    assert_eq!(q.num_queues(), 3);
    q.add_queues(3);
    assert_eq!(q.num_queues(), 3);
    q.add_queues(0);
    assert_eq!(q.num_queues(), 3);
    q.add_queues(5);
    assert_eq!(q.num_queues(), 5);
}

#[test]
fn pushed_packet_comes_out_of_try_pop() {
    let q: GraphPacketQueue<u32> = GraphPacketQueue::new();
    assert!(take(&q, 0).is_none());
    assert!(q.push(NodeId::new(3), 77).0.is_ok());
    let (node, data) = take(&q, 0).unwrap().into_parts();
    assert_eq!(node, NodeId::new(3));
    assert_eq!(data, 77);
    assert!(take(&q, 0).is_none());
}

#[test]
fn try_pop_looks_into_own_queue_first() {
    let mut q: GraphPacketQueue<u32> = GraphPacketQueue::new();
    q.add_queues(3);
    // node 0 goes to queue 0, node 2 to queue 2
    assert!(q.push(NodeId::new(0), 100).0.is_ok());
    assert!(q.push(NodeId::new(2), 200).0.is_ok());
    // worker 2 starts at queue 2
    let (_, first) = take(&q, 2).unwrap().into_parts();
    assert_eq!(first, 200);
    // then it takes from the other queues
    let (_, second) = take(&q, 2).unwrap().into_parts();
    assert_eq!(second, 100);
    assert!(take(&q, 2).is_none());
}

#[test]
fn try_pop_steals_from_every_queue() {
    let mut q: GraphPacketQueue<u32> = GraphPacketQueue::new();
    q.add_queues(4);
    for node in 0..4usize {
        assert!(q.push(NodeId::new(node), node as u32).0.is_ok());
    }
    let mut seen = Vec::new();
    while let Some(p) = take(&q, 1) {
        seen.push(p.into_parts().1);
    }
    assert_eq!(seen, vec![1, 2, 3, 0]);
}

#[test]
fn same_node_packets_share_a_queue_in_order() {
    let mut q: GraphPacketQueue<u32> = GraphPacketQueue::new();
    q.add_queues(2);
    assert!(q.push(NodeId::new(3), 1).0.is_ok());
    assert!(q.push(NodeId::new(3), 2).0.is_ok());
    assert!(q.push(NodeId::new(3), 3).0.is_ok());
    let own = q.own_queue(1);
    let a = own.try_recv().unwrap().into_parts().1;
    let b = own.try_recv().unwrap().into_parts().1;
    let c = own.try_recv().unwrap().into_parts().1;
    assert_eq!((a, b, c), (1, 2, 3));
    assert!(take(&q, 0).is_none());
}

#[test]
fn pop_waits_briefly_and_gives_up() {
    let q: GraphPacketQueue<u32> = GraphPacketQueue::new();
    assert!(q.pop(0).0.is_none());
    assert!(q.push(NodeId::new(9), 5).0.is_ok());
    assert_eq!(q.pop(0).0.unwrap().into_parts().1, 5);
}

#[test]
fn queue_holds_its_capacity() {
    let q: GraphPacketQueue<usize> = GraphPacketQueue::new();
    for i in 0..QUEUE_CAPACITY {
        assert!(q.push(NodeId::new(0), i).0.is_ok());
    }
    for i in 0..QUEUE_CAPACITY {
        assert_eq!(take(&q, 0).unwrap().into_parts().1, i);
    }
    assert!(take(&q, 0).is_none());
}

struct Forward {
    to: NodeId,
    seen: usize,
}

impl AcceptWork<u32> for Forward {
    fn do_work(&mut self, packet: u32, further_packets: &mut LocalPacketQueue<u32>) {
        self.seen += 1;
        further_packets.push(self.to, packet + 1);
    }
}

#[test]
fn node_lock_serves_one_worker_at_a_time() {
    let node: Node<u32, Forward> = Node::new(Forward { to: NodeId::new(4), seen: 0 });
    let g = node.inner().try_lock().unwrap();
    assert!(node.inner().try_lock().is_none());
    g.unlock();
    assert!(node.inner().try_lock().is_some());
}

#[test]
fn boxed_node_does_the_work_of_its_content() {
    let mut boxed: Box<dyn AcceptWork<u32> + Send> = Box::new(Forward { to: NodeId::new(4), seen: 0 });
    let mut further = LocalPacketQueue::new();
    boxed.do_work(1, &mut further);
    let (to, data) = further.pop().unwrap().into_parts();
    assert_eq!(to, NodeId::new(4));
    assert_eq!(data, 2);
}

use graph_processing::engine::node_table::NodeTable;

#[test]
fn node_table_hands_out_fresh_ids() {
    let mut t: NodeTable<&str> = NodeTable::new();
    let a = t.insert_node("a");
    let b = t.insert_node("b");
    let c = t.insert_node("c");
    assert_eq!(a, NodeId::new(0));
    assert_eq!(b, NodeId::new(1));
    assert_eq!(c, NodeId::new(2));
    assert_eq!(t.get(b), Some(&"b"));
}

#[test]
fn node_table_delete_drops_the_node_only() {
    let mut t: NodeTable<u32> = NodeTable::new();
    let a = t.insert_node(10);
    let b = t.insert_node(20);
    assert_eq!(t.delete_node(a), Some(10));
    assert!(!t.contains(a));
    assert_eq!(t.get(a), None);
    assert_eq!(t.get(b), Some(&20));
    assert_eq!(t.delete_node(a), None);
    // ids are not reused after a deletion
    let c = t.insert_node(30);
    assert_eq!(c, NodeId::new(2));
    assert!(t.contains(c));
}

#[test]
fn node_table_unknown_id_is_absent() {
    let t: NodeTable<u32> = NodeTable::new();
    assert!(!t.contains(NodeId::new(5)));
    assert!(t.get(NodeId::new(5)).is_none());
}

use graph_processing::engine::graph::{process_step, probe_index, PacketStep};

#[test]
fn probe_index_wraps_around_the_queues() {
    assert_eq!(probe_index(2, 0, 4), 2);
    assert_eq!(probe_index(2, 1, 4), 3);
    assert_eq!(probe_index(2, 2, 4), 0);
    assert_eq!(probe_index(2, 3, 4), 1);
}

#[test]
fn packet_for_missing_node_is_dropped() {
    let step = process_step::<u32, Forward>(None, WorkPacket::new(NodeId::new(1), 5));
    assert!(matches!(step, PacketStep::Dropped));
}

#[test]
fn packet_for_free_node_is_worked_and_busy_node_is_retried() {
    let node: Node<u32, Forward> = Node::new(Forward { to: NodeId::new(2), seen: 0 });
    match process_step(Some(&node), WorkPacket::new(NodeId::new(1), 5)) {
        PacketStep::Work(guard, payload) => {
            assert_eq!(payload, 5);
            match process_step(Some(&node), WorkPacket::new(NodeId::new(1), 6)) {
                PacketStep::Retry(p) => assert_eq!(p.into_parts(), (NodeId::new(1), 6)),
                _ => panic!("a held node must be retried"),
            }
            guard.unlock();
        }
        _ => panic!("a free node must be worked"),
    }
    assert!(node.inner().try_lock().is_some());
}

#[test]
fn pop_takes_from_other_queues_when_own_is_empty() {
    let mut q: GraphPacketQueue<u32> = GraphPacketQueue::new();
    q.add_queues(2);
    assert!(q.push(NodeId::new(1), 11).0.is_ok());
    // worker 0 waits on queue 0, finds nothing, then takes the packet from queue 1
    assert_eq!(q.pop(0).0.unwrap().into_parts().1, 11);
    assert!(q.pop(0).0.is_none());
}

#[test]
fn sender_for_is_the_node_queue() {
    let mut q: GraphPacketQueue<u32> = GraphPacketQueue::new();
    q.add_queues(3);
    q.sender_for(NodeId::new(4)).send(WorkPacket::new(NodeId::new(4), 9)).unwrap();
    // node 4 of 3 queues is queue 1
    assert_eq!(q.own_queue(1).try_recv().unwrap().into_parts().1, 9);
}
