//! The streams of a tunnel: each counts its bytes into its own counter, whose
//! parent is the counter of the tunnel.
use vstd::prelude::*;

use crate::byte_counter::ByteCounter;

verus! {

/// A stream of a tunnel, with its own byte counter under the tunnel's.
#[derive(Debug)]
pub struct TunnelStream {
    id: u64,
    byte_counter: ByteCounter,
}

impl Clone for TunnelStream {
    /// A handle on the same stream, sharing its byte counter.
    fn clone(&self) -> (r: Self)
        ensures
            r == *self,
    {
        TunnelStream { id: self.id, byte_counter: self.byte_counter.clone() }
    }
}

impl TunnelStream {
    /// Index of the stream within its tunnel.
    pub closed spec fn spec_id(&self) -> u64 {
        self.id
    }

    /// The stream's byte counter.
    pub closed spec fn spec_byte_counter(&self) -> ByteCounter {
        self.byte_counter
    }

    /// The stream `id` of a tunnel whose byte counter is `tunnel_byte_counter`: its
    /// own counter starts at zero and counts into the tunnel's.
    pub fn new(id: u64, tunnel_byte_counter: ByteCounter) -> (r: Self)
        ensures
            r.spec_id() == id,
            r.spec_byte_counter().spec_parent() == Some(tunnel_byte_counter),
    {
        TunnelStream { id, byte_counter: ByteCounter::new(Some(tunnel_byte_counter)) }
    }

    /// Index of the stream within its tunnel.
    pub fn id(&self) -> (r: u64)
        ensures
            r == self.spec_id(),
    {
        self.id
    }

    /// The stream's byte counter.
    pub fn byte_counter(&self) -> (r: &ByteCounter)
        ensures
            *r == self.spec_byte_counter(),
    {
        &self.byte_counter
    }
}

} // verus!
