use vstd::prelude::*;

verus! {

/// The largest datagram a socket reads at once, in bytes.
pub const MAX_DATAGRAM: usize = 1472;

/// The bytes of one datagram.
#[derive(Clone)]
pub struct NetworkPacket {
    pub data: Vec<u8>,
}

impl NetworkPacket {
    /// A zeroed buffer that holds the largest datagram a socket reads.
    pub fn receive_buffer() -> (buf: Vec<u8>)
        ensures
            buf@.len() == MAX_DATAGRAM,
            forall|i: int| 0 <= i < MAX_DATAGRAM ==> buf@[i] == 0u8,
    {
        let mut buf: Vec<u8> = Vec::new();
        let mut i: usize = 0;
        while i < MAX_DATAGRAM
            invariant
                i <= MAX_DATAGRAM,
                buf@.len() == i,
                forall|j: int| 0 <= j < i ==> buf@[j] == 0u8,
            decreases MAX_DATAGRAM - i,
        {
            buf.push(0u8);
            i = i + 1;
        }
        buf
    }

    /// The packet of the first `bytes` bytes of `buf`, into which a socket read that many.
    pub fn from_received(buf: Vec<u8>, bytes: usize) -> (p: Self)
        ensures
            bytes <= buf@.len() ==> p.data@ == buf@.subrange(0, bytes as int),
            bytes > buf@.len() ==> p.data@ == buf@,
    {
        let mut data = buf;
        data.truncate(bytes);
        NetworkPacket { data }
    }
}

} // verus!
