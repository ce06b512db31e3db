use vstd::prelude::*;

verus! {

/// Identifies a socket that the server listens on.
#[derive(PartialEq, Eq, Structural, Hash, Clone, Copy, Debug)]
pub struct SocketId(usize);

impl View for SocketId {
    type V = usize;

    closed spec fn view(&self) -> usize {
        self.0
    }
}

impl SocketId {
    /// Two ids are equal exactly where their numbers are.
    pub proof fn lemma_equal_by_value(a: SocketId, b: SocketId)
        ensures
            a == b <==> a@ == b@,
    {
    }

    pub fn new(value: usize) -> (id: Self)
        ensures
            id@ == value,
    {
        SocketId(value)
    }

    /// The number that identifies this socket.
    pub fn value(&self) -> (v: usize)
        ensures
            v == self@,
    {
        self.0
    }

    /// The socket that a readiness event names: the event's data word is the number the
    /// socket was registered with.
    pub fn from_event_data(data: u64) -> (id: Self)
        ensures
            id@ == data as usize,
    {
        SocketId(data as usize)
    }

    /// The data word under which this socket is registered for readiness events.
    pub fn event_data(&self) -> (data: u64)
        ensures
            data == self@ as u64,
    {
        self.0 as u64
    }
}

/// The port a sending thread points a socket at before it writes to it: the socket's own
/// port plus 100, or `None` where that would pass the largest port.
pub fn reply_port(local_port: u16) -> (p: Option<u16>)
    ensures
        local_port + 100 <= u16::MAX ==> p == Some((local_port + 100) as u16),
        local_port + 100 > u16::MAX ==> p is None,
{
    if local_port <= u16::MAX - 100 {
        Some(local_port + 100)
    } else {
        None
    }
}

} // verus!
