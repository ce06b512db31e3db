use vstd::prelude::*;
use std::collections::VecDeque;
use std::marker::PhantomData;
use std::sync::Arc;
use crossbeam_channel::{Receiver, Sender};
use crate::engine::channel::{bounded_channel, receive_within_millis, send_message, share, try_receive, Polled, Sent};
use crate::engine::spin::{SpinLock, SpinLockGuard};

verus! {

/// Identifies a node of the graph.
#[derive(PartialEq, Eq, Structural, Hash, Clone, Copy, Debug)]
pub struct NodeId(usize);

impl View for NodeId {
    type V = usize;

    closed spec fn view(&self) -> usize {
        self.0
    }
}

impl NodeId {
    /// Two ids are equal exactly where their numbers are.
    pub proof fn lemma_equal_by_value(a: NodeId, b: NodeId)
        ensures
            a == b <==> a@ == b@,
    {
    }

    pub fn new(value: usize) -> (id: Self)
        ensures
            id@ == value,
    {
        Self(value)
    }

    /// The number that identifies this node.
    pub fn value(&self) -> (v: usize)
        ensures
            v == self@,
    {
        self.0
    }
}

/// A packet addressed to one node of the graph.
pub struct WorkPacket<T: Send> {
    for_node: NodeId,
    payload: T,
}

impl<T: Send> WorkPacket<T> {
    /// The node this packet is addressed to.
    pub closed spec fn target(&self) -> NodeId {
        self.for_node
    }

    /// What the packet carries.
    pub closed spec fn data(&self) -> T {
        self.payload
    }

    /// The packet addressed to `for_node` that carries `payload`.
    pub closed spec fn addressed(for_node: NodeId, payload: T) -> Self {
        WorkPacket { for_node, payload }
    }

    /// A packet is determined by its target and its payload.
    pub broadcast proof fn lemma_addressed(for_node: NodeId, payload: T)
        ensures
            #[trigger] Self::addressed(for_node, payload).target() == for_node,
            Self::addressed(for_node, payload).data() == payload,
    {
    }

    pub fn new(for_node: NodeId, payload: T) -> (p: Self)
        ensures
            p == Self::addressed(for_node, payload),
            p.target() == for_node,
            p.data() == payload,
    {
        WorkPacket { for_node, payload }
    }

    /// The node this packet is addressed to.
    pub fn for_node(&self) -> (id: NodeId)
        ensures
            id == self.target(),
    {
        self.for_node
    }

    /// Takes the packet apart into its target node and its payload.
    pub fn into_parts(self) -> (parts: (NodeId, T))
        ensures
            parts.0 == self.target(),
            parts.1 == self.data(),
    {
        (self.for_node, self.payload)
    }
}

/// To be used by one thread to be able to hold packets that are produced by a node without
/// going through the more expensive thread-safe queues.
///
/// The queue is first in, first out: its view is the sequence of waiting packets, oldest first.
pub struct LocalPacketQueue<PacketData: Send>(VecDeque<WorkPacket<PacketData>>);

impl<PacketData: Send> View for LocalPacketQueue<PacketData> {
    type V = Seq<WorkPacket<PacketData>>;

    closed spec fn view(&self) -> Seq<WorkPacket<PacketData>> {
        self.0@
    }
}

impl<PacketData: Send> LocalPacketQueue<PacketData> {
    pub fn new() -> (q: Self)
        ensures
            q@ == Seq::<WorkPacket<PacketData>>::empty(),
    {
        Self(VecDeque::new())
    }

    /// Queues `packet` for the node `to_node`, behind every packet already waiting.
    pub fn push(&mut self, to_node: NodeId, packet: PacketData)
        ensures
            final(self)@ == old(self)@.push(WorkPacket::addressed(to_node, packet)),
    {
        self.push_packet(WorkPacket { for_node: to_node, payload: packet })
    }

    fn push_packet(&mut self, packet: WorkPacket<PacketData>)
        ensures
            final(self)@ == old(self)@.push(packet),
    {
        self.0.push_back(packet)
    }

    /// Takes out the oldest waiting packet, or `None` when the queue is empty.
    pub fn pop(&mut self) -> (r: Option<WorkPacket<PacketData>>)
        ensures
            old(self)@.len() == 0 ==> r is None && final(self)@ == old(self)@,
            old(self)@.len() > 0 ==> r == Some(old(self)@[0]) && final(self)@ == old(self)@.drop_first(),
    {
        self.0.pop_front()
    }

    /// First in, first out: after `push` adds a packet to a queue, `pop` gives the oldest
    /// packet that was waiting, and the new packet only once all of those have come out; on
    /// an empty queue `pop` gives the new packet itself and leaves the queue empty.
    pub proof fn lemma_first_in_first_out(q: Seq<WorkPacket<PacketData>>, p: WorkPacket<PacketData>)
        ensures
            q.len() == 0 ==> q.push(p)[0] == p && q.push(p).drop_first() == q,
            q.len() > 0 ==> q.push(p)[0] == q[0] && q.push(p).drop_first() == q.drop_first().push(p),
    {
        if q.len() > 0 {
            assert(q.push(p).drop_first() =~= q.drop_first().push(p));
        } else {
            assert(q.push(p).drop_first() =~= q);
        }
    }

    /// The packets that `k` calls of `pop` give, one after another, on a queue whose view is
    /// `q` (as `pop`'s contract says each call does: the first packet, then the rest).
    pub open spec fn drained(q: Seq<WorkPacket<PacketData>>, k: nat) -> Seq<WorkPacket<PacketData>>
        decreases k,
    {
        if k == 0 || q.len() == 0 {
            Seq::empty()
        } else {
            seq![q[0]] + Self::drained(q.drop_first(), (k - 1) as nat)
        }
    }

    /// Pops give the packets in the order they were pushed: `k` pops give the first `k`
    /// packets of the queue.
    pub proof fn lemma_drained_in_order(q: Seq<WorkPacket<PacketData>>, k: nat)
        requires
            k <= q.len(),
        ensures
            Self::drained(q, k) == q.take(k as int),
        decreases k,
    {
        if k > 0 {
            Self::lemma_drained_in_order(q.drop_first(), (k - 1) as nat);
            assert(seq![q[0]] + q.drop_first().take(k - 1) =~= q.take(k as int));
        } else {
            assert(q.take(0) =~= Seq::<WorkPacket<PacketData>>::empty());
        }
    }

    /// A packet pushed onto a queue that holds `s` comes out after all of `s`, in their order:
    /// `s.len()` pops give `s`, and the next pop gives the new packet.
    pub proof fn lemma_push_comes_out_last(s: Seq<WorkPacket<PacketData>>, p: WorkPacket<PacketData>)
        ensures
            Self::drained(s.push(p), s.len()) == s,
            Self::drained(s.push(p), s.len() + 1) == s.push(p),
    {
        Self::lemma_drained_in_order(s.push(p), s.len());
        Self::lemma_drained_in_order(s.push(p), s.len() + 1);
        assert(s.push(p).take(s.len() as int) =~= s);
        assert(s.push(p).take(s.len() as int + 1) =~= s.push(p));
    }

    /// The number of waiting packets.
    pub fn len(&self) -> (n: usize)
        ensures
            n == self@.len(),
    {
        self.0.len()
    }
}

/// What a node of the graph does with a packet addressed to it: it may consume it and may
/// queue further packets for other nodes.
pub trait AcceptWork<PacketData: Send> {
    fn do_work(&mut self, packet: PacketData, further_packets: &mut LocalPacketQueue<PacketData>);
}

/// A boxed node, such as a `Box<dyn AcceptWork<_> + Send>`, works as the node inside it.
impl<PacketData: Send, W: AcceptWork<PacketData> + ?Sized> AcceptWork<PacketData> for Box<W> {
    fn do_work(&mut self, packet: PacketData, further_packets: &mut LocalPacketQueue<PacketData>) {
        (**self).do_work(packet, further_packets)
    }
}

/// A node of the graph: its data, behind a lock that one worker at a time holds while it
/// hands the node a packet.
#[verifier::reject_recursive_types(NodeData)]
pub struct Node<PacketData: Send, NodeData: AcceptWork<PacketData> + Send> {
    inner: SpinLock<NodeData>,
    _marker: PhantomData<PacketData>,
}

impl<PacketData: Send, NodeData: AcceptWork<PacketData> + Send> Node<PacketData, NodeData> {
    pub fn new(data: NodeData) -> Self {
        Self { inner: SpinLock::new(data), _marker: PhantomData }
    }

    /// The lock around the node's data.
    pub fn inner(&self) -> (l: &SpinLock<NodeData>)
        ensures
            *l == self.lock(),
    {
        &self.inner
    }

    /// The lock around the node's data.
    pub closed spec fn lock(&self) -> SpinLock<NodeData> {
        self.inner
    }
}

/// What a worker does with a packet, once it looked its node up and tried the node's lock.
#[verifier::reject_recursive_types(NodeData)]
pub enum PacketStep<'a, PacketData: Send, NodeData: AcceptWork<PacketData> + Send> {
    /// The node does not exist: the packet is dropped.
    Dropped,
    /// The node is busy: the packet goes back into the graph's queues to be tried later.
    Retry(WorkPacket<PacketData>),
    /// The worker holds the node: it hands the node the payload, then lets the node go.
    Work(SpinLockGuard<'a, NodeData>, PacketData),
}

/// The decision of a worker on `packet`, given its node as the graph's table had it (`None`
/// where there is no such node): drop packets for nodes that do not exist on the floor; where
/// the node's lock is free, take it and hand over the payload; where another worker holds it,
/// try again later.
pub fn process_step<'a, PacketData: Send, NodeData: AcceptWork<PacketData> + Send>(
    node: Option<&'a Node<PacketData, NodeData>>,
    packet: WorkPacket<PacketData>,
) -> (s: PacketStep<'a, PacketData, NodeData>)
    ensures
        node is None <==> s is Dropped,
        node is Some ==> s is Work || s is Retry,
        s matches PacketStep::Retry(p) ==> p == packet,
        s matches PacketStep::Work(g, d) ==> node is Some && *g.spec_lock() == node->0.lock()
            && d == packet.data(),
{
    match node {
        None => PacketStep::Dropped,
        Some(n) => {
            let attempt = n.inner().try_lock();
            step_after_attempt(attempt, packet)
        },
    }
}

/// What a worker does with `packet` after it tried the lock of the packet's node: where the
/// attempt took the lock, it works the payload under that guard; where another worker held
/// the node, the packet is tried again later.
pub fn step_after_attempt<'a, PacketData: Send, NodeData: AcceptWork<PacketData> + Send>(
    attempt: Option<SpinLockGuard<'a, NodeData>>,
    packet: WorkPacket<PacketData>,
) -> (s: PacketStep<'a, PacketData, NodeData>)
    ensures
        s is Work <==> attempt is Some,
        s is Retry <==> attempt is None,
        s matches PacketStep::Work(g, d) ==> attempt == Some(g) && d == packet.data(),
        s matches PacketStep::Retry(p) ==> p == packet,
{
    match attempt {
        Some(g) => PacketStep::Work(g, packet.payload),
        None => PacketStep::Retry(packet),
    }
}

/// The number of packets each of the graph's queues holds at most.
pub const QUEUE_CAPACITY: usize = 100;

/// How long a blocking `GraphPacketQueue::pop` waits for a packet, in milliseconds.
pub const POP_WAIT_MILLIS: u64 = 10;

/// The queue that a worker whose own queue is `start` looks into at its `i`-th probe, out of
/// `n` queues.
pub open spec fn probe_order(start: int, i: int, n: int) -> int {
    (start + i) % n
}

/// Whether some probe out of `n`, starting at `start`, looks into the queue `q`.
pub open spec fn is_probed(start: int, q: int, n: int) -> bool {
    exists|i: int| 0 <= i < n && #[trigger] probe_order(start, i, n) == q
}

proof fn lemma_mod_below_twice(x: int, n: int)
    requires
        0 < n,
        0 <= x < 2 * n,
    ensures
        x < n ==> x % n == x,
        x >= n ==> x % n == x - n,
{
    if x < n {
        vstd::arithmetic::div_mod::lemma_small_mod(x as nat, n as nat);
    } else {
        vstd::arithmetic::div_mod::lemma_small_mod((x - n) as nat, n as nat);
        vstd::arithmetic::div_mod::lemma_mod_sub_multiples_vanish(x, n);
    }
}

/// A worker's probes visit its own queue first and then every queue exactly once: the probe
/// order over `n` queues, starting at `start`, is a permutation of the queues.
pub proof fn lemma_probe_order_visits_each_queue_once(start: int, n: int)
    requires
        0 <= start < n,
    ensures
        probe_order(start, 0, n) == start,
        forall|i: int| 0 <= i < n ==> 0 <= #[trigger] probe_order(start, i, n) < n,
        forall|i: int, j: int|
            0 <= i < n && 0 <= j < n && #[trigger] probe_order(start, i, n) == #[trigger] probe_order(start, j, n)
                ==> i == j,
        forall|q: int| 0 <= q < n ==> #[trigger] is_probed(start, q, n),
{
    lemma_mod_below_twice(start, n);
    assert forall|i: int| 0 <= i < n implies 0 <= #[trigger] probe_order(start, i, n) < n by {
        lemma_mod_below_twice(start + i, n);
    }
    assert forall|i: int, j: int|
        0 <= i < n && 0 <= j < n && #[trigger] probe_order(start, i, n) == #[trigger] probe_order(start, j, n)
            implies i == j by {
        lemma_mod_below_twice(start + i, n);
        lemma_mod_below_twice(start + j, n);
    }
    assert forall|q: int| 0 <= q < n implies #[trigger] is_probed(start, q, n) by {
        let i: int = if q >= start { q - start } else { q + n - start };
        lemma_mod_below_twice(start + i, n);
        assert(probe_order(start, i, n) == q);
    }
}

/// The index of the `i`-th probe of a worker whose own queue is `start`, out of `n` queues:
/// `(i + start) % n`, the sum taken with wrap-around (which never wraps for fewer than
/// `usize::MAX / 2` queues).
pub fn probe_index(start: usize, i: usize, n: usize) -> (idx: usize)
    requires
        start < n,
        i < n,
    ensures
        idx < n,
        idx == vstd::wrapping::usize_specs::wrapping_add(i, start) % n,
        start + i <= usize::MAX ==> idx == probe_order(start as int, i as int, n as int),
{
    i.wrapping_add(start) % n
}

/// The queue that a worker whose own queue is `start` looks into at its `i`-th probe, out of
/// `n` queues, as `probe_index` computes it: `(i + start) % n`, the sum taken with
/// wrap-around.
pub open spec fn probe_slot(start: usize, i: int, n: usize) -> usize {
    (vstd::wrapping::usize_specs::wrapping_add(i as usize, start) % n) as usize
}

/// The first probe looks into the own queue.
proof fn lemma_first_probe_is_own(start: usize, n: usize)
    requires
        start < n,
    ensures
        probe_slot(start, 0, n) == start,
{
    vstd::arithmetic::div_mod::lemma_small_mod(start as nat, n as nat);
}

/// Where the queues are few enough that the wrap-around never happens (fewer than half of
/// `usize::MAX`), the probes are those of `probe_order`, so they visit every queue once.
pub proof fn lemma_probe_slot_is_probe_order(start: usize, i: int, n: usize)
    requires
        start < n,
        0 <= i < n,
        n + n <= usize::MAX,
    ensures
        probe_slot(start, i, n) == probe_order(start as int, i, n as int),
{
}

/// Whether one of `polls` looked into `receiver` and found nothing.
pub open spec fn polled_and_empty<T>(polls: Seq<Polled<T>>, receiver: Receiver<T>) -> bool {
    exists|i: int| 0 <= i < polls.len() && #[trigger] polls[i].receiver() == receiver && !polls[i].gave_message()
}

/// Whether no two of `queues` share a sender or a receiver: each is a channel of its own.
pub open spec fn channels_distinct<PacketData: Send>(
    queues: Seq<(Arc<Sender<WorkPacket<PacketData>>>, Arc<Receiver<WorkPacket<PacketData>>>)>,
) -> bool {
    forall|a: int, b: int|
        0 <= a < b < queues.len() ==> *queues[a].0 != *queues[b].0 && *queues[a].1 != *queues[b].1
}

/// The number of queues after a request for `want` queues where there were `len`: more are
/// added where there were fewer, and none is ever taken away.
pub open spec fn queue_count_after(len: nat, want: nat) -> nat {
    if len < want {
        want
    } else {
        len
    }
}

/// Requests for queues only ever add queues, and a request asked again changes nothing.
pub proof fn lemma_queue_requests_grow_only(len: nat, a: nat, b: nat)
    ensures
        queue_count_after(len, a) >= len,
        queue_count_after(len, a) >= a,
        queue_count_after(queue_count_after(len, a), a) == queue_count_after(len, a),
        queue_count_after(queue_count_after(len, a), b) == queue_count_after(len, if a < b { b } else { a }),
{
}

/// The graph's shared work queues: one bounded channel per worker. Packets for one node
/// always go to the same queue, so that a node is likely to be served by the same worker.
#[verifier::reject_recursive_types(PacketData)]
pub struct GraphPacketQueue<PacketData: Send> {
    queues: Vec<(Arc<Sender<WorkPacket<PacketData>>>, Arc<Receiver<WorkPacket<PacketData>>>)>,
}

impl<PacketData: Send> View for GraphPacketQueue<PacketData> {
    type V = Seq<(Arc<Sender<WorkPacket<PacketData>>>, Arc<Receiver<WorkPacket<PacketData>>>)>;

    closed spec fn view(&self) -> Self::V {
        self.queues@
    }
}

impl<PacketData: Send> GraphPacketQueue<PacketData> {
    /// The queue set always holds at least one queue.
    #[verifier::type_invariant]
    spec fn wf(&self) -> bool {
        &&& self.queues@.len() > 0
        &&& channels_distinct(self.queues@)
    }

    /// Every queue is a channel of its own: no two queues share a sender or a receiver.
    pub closed spec fn separate_channels(&self) -> bool {
        channels_distinct(self.queues@)
    }

    pub fn new() -> (q: Self)
        ensures
            q@.len() == 1,
            q.separate_channels(),
    {
        let mut queues: Vec<(Arc<Sender<WorkPacket<PacketData>>>, Arc<Receiver<WorkPacket<PacketData>>>)> = Vec::new();
        let (s, r) = bounded_channel(QUEUE_CAPACITY, &queues);
        queues.push((Arc::new(s), Arc::new(r)));
        Self { queues }
    }

    /// The number of queues.
    pub fn num_queues(&self) -> (n: usize)
        ensures
            n == self@.len(),
            n > 0,
            self.separate_channels(),
    {
        proof {
            use_type_invariant(self);
        }
        self.queues.len()
    }

    /// The queue that holds the packets for `node_id`.
    pub fn queue_for(&self, node_id: NodeId) -> (idx: usize)
        ensures
            idx == node_id@ as int % self@.len() as int,
            idx < self@.len(),
    {
        proof {
            use_type_invariant(self);
        }
        node_id.value() % self.queues.len()
    }

    /// The own queue of the worker `worker_id`, the one it looks into first.
    pub fn own_queue_index(&self, worker_id: usize) -> (idx: usize)
        ensures
            idx == worker_id as int % self@.len() as int,
            idx < self@.len(),
    {
        proof {
            use_type_invariant(self);
        }
        worker_id % self.queues.len()
    }

    /// Put packets for the same node in the same queue so a node is likely to be processed
    /// by the same thread. Blocks while that queue is full. The packet comes back as the
    /// error where the queue has no receiver left. The evidence names the sender the packet
    /// was handed to: that of the queue `node_id % num_queues`, and of no other queue.
    pub fn push(&self, node_id: NodeId, packet: PacketData) -> (r: (Result<(), WorkPacket<PacketData>>, Sent<WorkPacket<PacketData>>))
        ensures
            r.0 matches Err(p) ==> p == WorkPacket::addressed(node_id, packet),
            r.1.sender() == *self@[node_id@ as int % self@.len() as int].0,
            forall|j: int| 0 <= j < self@.len() ==> (*self@[j].0 == r.1.sender() <==> j == node_id@ as int % self@.len() as int),
    {
        self.push_packet(WorkPacket { for_node: node_id, payload: packet })
    }

    /// Sends `packet` to the queue of the node it is addressed to, see `push`.
    pub fn push_packet(&self, packet: WorkPacket<PacketData>) -> (r: (Result<(), WorkPacket<PacketData>>, Sent<WorkPacket<PacketData>>))
        ensures
            r.0 matches Err(p) ==> p == packet,
            r.1.sender() == *self@[packet.target()@ as int % self@.len() as int].0,
            forall|j: int| 0 <= j < self@.len() ==> (*self@[j].0 == r.1.sender() <==> j == packet.target()@ as int % self@.len() as int),
    {
        proof {
            use_type_invariant(self);
        }
        let sender = self.sender_for(packet.for_node);
        send_message(&**sender, packet)
    }

    /// The sending end of the queue that holds the packets for `node_id`, the one at
    /// `queue_for(node_id)`.
    pub fn sender_for(&self, node_id: NodeId) -> (s: &Arc<Sender<WorkPacket<PacketData>>>)
        ensures
            *s == self@[node_id@ as int % self@.len() as int].0,
    {
        let idx: usize = self.queue_for(node_id);
        &self.queues[idx].0
    }

    /// A handle to the own queue of the worker `worker_id`.
    pub fn own_queue(&self, worker_id: usize) -> (q: Arc<Receiver<WorkPacket<PacketData>>>)
        ensures
            q == self@[worker_id as int % self@.len() as int].1,
    {
        let idx: usize = self.own_queue_index(worker_id);
        share(&self.queues[idx].1)
    }

    /// Whether `probes` and `polled` record the probes of the worker `worker_id` into this
    /// queue set: the queues in the order of `probe_slot`, starting with the own queue, at
    /// most one probe per queue, and for each probe the receiver of that queue.
    pub open spec fn is_probe_record(
        &self,
        worker_id: usize,
        probes: Seq<usize>,
        polled: Seq<Receiver<WorkPacket<PacketData>>>,
    ) -> bool {
        let n = self@.len();
        let start = (worker_id as int % n as int) as usize;
        &&& probes == Seq::new(probes.len(), |i: int| probe_slot(start, i, n as usize))
        &&& probes.len() <= n
        &&& probes.len() > 0 ==> probes[0] == start
        &&& polled.len() == probes.len()
        &&& forall|i: int| 0 <= i < probes.len() ==> polled[i] == *self@[probes[i] as int].1
    }

    /// Whether `polls` records the probes of the worker `worker_id` into this queue set, in
    /// the order they were made: the `i`-th probe looked into the receiver of the queue
    /// `probe_slot(worker_id % n, i, n)` (so the first into the own queue), there are at most
    /// `n` of them, and every probe but the last found nothing.
    pub open spec fn follows_probe_order(&self, worker_id: usize, polls: Seq<Polled<WorkPacket<PacketData>>>) -> bool {
        let n = self@.len();
        let start = (worker_id as int % n as int) as usize;
        &&& polls.len() <= n
        &&& forall|i: int| 0 <= i < polls.len() ==> #[trigger] polls[i].receiver() == *self@[probe_slot(start, i, n as usize) as int].1
        &&& forall|i: int| 0 <= i < polls.len() - 1 ==> !#[trigger] polls[i].gave_message()
    }

    /// Separate queues are separate channels: two queues have the same sender, or the same
    /// receiver, only where they are the same queue.
    pub proof fn lemma_queues_are_separate(&self, i: int, j: int)
        requires
            self.separate_channels(),
            0 <= i < self@.len(),
            0 <= j < self@.len(),
        ensures
            *self@[i].0 == *self@[j].0 <==> i == j,
            *self@[i].1 == *self@[j].1 <==> i == j,
    {
        if i < j {
        } else if j < i {
        }
    }

    /// Routing keeps a node with one queue and nodes of different queues apart: two pushes,
    /// for nodes `a` and `b`, hand their packets to the same sender exactly where `a` and `b`
    /// leave the same remainder modulo the number of queues.
    pub proof fn lemma_pushes_share_a_queue_iff_same_remainder(
        &self,
        a: NodeId,
        b: NodeId,
        sent_a: Sent<WorkPacket<PacketData>>,
        sent_b: Sent<WorkPacket<PacketData>>,
    )
        requires
            self.separate_channels(),
            self@.len() > 0,
            sent_a.sender() == *self@[a@ as int % self@.len() as int].0,
            sent_b.sender() == *self@[b@ as int % self@.len() as int].0,
        ensures
            sent_a.sender() == sent_b.sender() <==> a@ as int % self@.len() as int == b@ as int % self@.len() as int,
    {
        self.lemma_queues_are_separate(a@ as int % self@.len() as int, b@ as int % self@.len() as int);
    }

    /// A blocking pop waits on the worker's own queue: two workers wait on the same receiver
    /// exactly where their ids leave the same remainder modulo the number of queues.
    pub proof fn lemma_workers_wait_on_own_queue(
        &self,
        w1: usize,
        w2: usize,
        waited_1: Polled<WorkPacket<PacketData>>,
        waited_2: Polled<WorkPacket<PacketData>>,
    )
        requires
            self.separate_channels(),
            self@.len() > 0,
            waited_1.receiver() == *self@[w1 as int % self@.len() as int].1,
            waited_2.receiver() == *self@[w2 as int % self@.len() as int].1,
        ensures
            waited_1.receiver() == waited_2.receiver() <==> w1 as int % self@.len() as int == w2 as int % self@.len() as int,
    {
        self.lemma_queues_are_separate(w1 as int % self@.len() as int, w2 as int % self@.len() as int);
    }

    /// Work stealing leaves no queue out: where a search came back empty handed, having made
    /// one probe per queue in the probe order, every queue's receiver was looked into and
    /// gave nothing (for fewer than half of `usize::MAX` queues, where the probe index does
    /// not wrap around).
    pub proof fn lemma_empty_search_polled_every_queue(
        &self,
        worker_id: usize,
        polls: Seq<Polled<WorkPacket<PacketData>>>,
    )
        requires
            self@.len() > 0,
            self@.len() + self@.len() <= usize::MAX,
            self.follows_probe_order(worker_id, polls),
            polls.len() == self@.len(),
            !polls[polls.len() - 1].gave_message(),
        ensures
            forall|q: int| 0 <= q < self@.len() ==> #[trigger] polled_and_empty(polls, *self@[q].1),
    {
        let n = self@.len();
        let start = (worker_id as int % n as int) as usize;
        lemma_probe_order_visits_each_queue_once(start as int, n as int);
        assert forall|q: int| 0 <= q < n implies #[trigger] polled_and_empty(polls, *self@[q].1) by {
            assert(is_probed(start as int, q, n as int));
            let i = choose|i: int| 0 <= i < n && #[trigger] probe_order(start as int, i, n as int) == q;
            lemma_probe_slot_is_probe_order(start, i, n as usize);
            assert(polls[i].receiver() == *self@[probe_slot(start, i, n as usize) as int].1);
            if i < polls.len() - 1 {
                assert(!polls[i].gave_message());
            }
        }
    }

    /// Waits a short while (`POP_WAIT_MILLIS`) for a packet in the own queue of the worker
    /// `worker_id`: start looking in the own queue, but take packets from other queues (as
    /// `try_pop` does) if nothing came into the own queue. The second part of the result is
    /// the evidence of the wait, on the own queue's receiver; the third that of the probes
    /// that followed (none where the wait brought a packet).
    pub fn pop(&self, worker_id: usize) -> (r: (Option<WorkPacket<PacketData>>, Polled<WorkPacket<PacketData>>, Vec<Polled<WorkPacket<PacketData>>>))
        ensures
            r.1.receiver() == *self@[worker_id as int % self@.len() as int].1,
            r.1.gave_message() ==> r.0 is Some && r.2@.len() == 0,
            !r.1.gave_message() ==> {
                &&& self.follows_probe_order(worker_id, r.2@)
                &&& r.0 is Some <==> r.2@.len() > 0 && r.2@[r.2@.len() - 1].gave_message()
                &&& r.0 is None ==> r.2@.len() == self@.len()
            },
    {
        let queue = self.own_queue(worker_id);
        let (waited, evidence) = Self::pop_from(&*queue);
        let (packet, polls) = self.steal_after_wait(waited, worker_id);
        (packet, evidence, polls)
    }

    /// What a worker does after waiting on its own queue: it keeps the packet that came, and
    /// where none came it takes one from any queue as `try_pop` does.
    pub fn steal_after_wait(&self, waited: Option<WorkPacket<PacketData>>, worker_id: usize) -> (r: (Option<WorkPacket<PacketData>>, Vec<Polled<WorkPacket<PacketData>>>))
        ensures
            waited is Some ==> r.0 == waited && r.1@.len() == 0,
            waited is None ==> {
                &&& self.follows_probe_order(worker_id, r.1@)
                &&& r.0 is Some <==> r.1@.len() > 0 && r.1@[r.1@.len() - 1].gave_message()
                &&& r.0 is None ==> r.1@.len() == self@.len()
            },
    {
        match waited {
            Some(packet) => (Some(packet), Vec::new()),
            None => self.try_pop(worker_id),
        }
    }

    /// Waits a short while (`POP_WAIT_MILLIS`) for a packet in `queue`, which a caller took
    /// with `own_queue` so that it need not keep the queue set borrowed while it waits. The
    /// evidence names the receiver waited on and whether it gave a packet.
    pub fn pop_from(queue: &Receiver<WorkPacket<PacketData>>) -> (r: (Option<WorkPacket<PacketData>>, Polled<WorkPacket<PacketData>>))
        ensures
            r.1.receiver() == *queue,
            r.1.gave_message() == r.0 is Some,
    {
        receive_within_millis(queue, POP_WAIT_MILLIS)
    }

    /// Takes a waiting packet without blocking: start looking in the worker's own queue,
    /// but take packets from other queues if nothing is left in the own queue. Each queue
    /// is looked into at most once, in the order of `probe_slot`, and the search stops at
    /// the first packet, which the last receiver polled gave. The second part of the result
    /// is the evidence of the polls, in order.
    pub fn try_pop(&self, worker_id: usize) -> (r: (Option<WorkPacket<PacketData>>, Vec<Polled<WorkPacket<PacketData>>>))
        ensures
            self.follows_probe_order(worker_id, r.1@),
            r.0 is Some <==> r.1@.len() > 0 && r.1@[r.1@.len() - 1].gave_message(),
            r.0 is None ==> r.1@.len() == self@.len(),
    {
        let n: usize = self.num_queues();
        let start: usize = self.own_queue_index(worker_id);
        let mut polls: Vec<Polled<WorkPacket<PacketData>>> = Vec::new();
        let mut i: usize = 0;
        while i < n
            invariant
                n == self@.len(),
                n > 0,
                start < n,
                start == worker_id as int % self@.len() as int,
                i <= n,
                polls@.len() == i,
                forall|j: int| 0 <= j < i ==> #[trigger] polls@[j].receiver() == *self@[probe_slot(start, j, n) as int].1,
                forall|j: int| 0 <= j < i ==> !#[trigger] polls@[j].gave_message(),
            decreases n - i,
        {
            let idx: usize = probe_index(start, i, n);
            let (received, evidence) = try_receive(&*self.queues[idx].1);
            polls.push(evidence);
            if let Some(packet) = received {
                return (Some(packet), polls);
            }
            i = i + 1;
        }
        (None, polls)
    }

    /// Adds queues until there are `want_queues`; where there are that many already,
    /// nothing changes. The queues that were there stay, in their places.
    pub fn add_queues(&mut self, want_queues: usize)
        ensures
            final(self)@.len() == queue_count_after(old(self)@.len(), want_queues as nat),
            final(self)@.subrange(0, old(self)@.len() as int) == old(self)@,
            final(self).separate_channels(),
    {
        proof {
            use_type_invariant(&*self);
        }
        let len: usize = self.queues.len();
        if len < want_queues {
            let mut queues: Vec<(Arc<Sender<WorkPacket<PacketData>>>, Arc<Receiver<WorkPacket<PacketData>>>)> = Vec::new();
            let mut j: usize = 0;
            while j < len
                invariant
                    j <= len,
                    len == self@.len(),
                    self@ == old(self)@,
                    queues@.len() == j,
                    forall|t: int| 0 <= t < j ==> queues@[t] == self@[t],
                decreases len - j,
            {
                let q0: Arc<Sender<WorkPacket<PacketData>>> = share(&self.queues[j].0);
                let q1: Arc<Receiver<WorkPacket<PacketData>>> = share(&self.queues[j].1);
                queues.push((q0, q1));
                j = j + 1;
            }
            let new_queues: usize = want_queues - len;
            proof {
                assert(queues@ =~= old(self)@);
            }
            let mut k: usize = 0;
            while k < new_queues
                invariant
                    k <= new_queues,
                    new_queues == want_queues - len,
                    len == old(self)@.len(),
                    queues@.len() == len + k,
                    queues@.subrange(0, len as int) == old(self)@,
                    channels_distinct(queues@),
                decreases new_queues - k,
            {
                let (s, r) = bounded_channel(QUEUE_CAPACITY, &queues);
                let ghost before = queues@;
                queues.push((Arc::new(s), Arc::new(r)));
                proof {
                    assert forall|a: int, b: int| 0 <= a < b < queues@.len() implies
                        *queues@[a].0 != *queues@[b].0 && *queues@[a].1 != *queues@[b].1 by {
                        if b < before.len() {
                            assert(queues@[a] == before[a] && queues@[b] == before[b]);
                        } else {
                            assert(queues@[a] == before[a]);
                        }
                    }
                }
                k = k + 1;
            }
            *self = GraphPacketQueue { queues };
        }
    }
}

} // verus!
