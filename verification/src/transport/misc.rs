//! The numbers of the streams that one end of a connection opens.

use vstd::prelude::*;

verus! {

/// Hands out stream ids: every second number, from the first on.
#[derive(Debug)]
pub struct StreamID {
    pub next: u32,
}

/// The id that is handed out after `k` others, where `first` was the first one.
pub open spec fn nth_stream_id(first: u32, k: nat) -> u32 {
    ((first + 2 * k) % 0x1_0000_0000) as u32
}

impl From<u32> for StreamID {
    fn from(first: u32) -> (r: StreamID) {
        StreamID { next: first }
    }
}

impl vstd::std_specs::convert::FromSpecImpl<u32> for StreamID {
    open spec fn obeys_from_spec() -> bool {
        true
    }

    open spec fn from_spec(first: u32) -> StreamID {
        StreamID { next: first }
    }
}

impl StreamID {
    /// Hands out an id.
    pub fn next(&mut self) -> (r: u32)
        ensures
            r == old(self).next,
            final(self).next == nth_stream_id(old(self).next, 1),
    {
        let id: u32 = self.next;
        self.next = id.wrapping_add(2);
        id
    }
}

/// Handing out one more id counts on from where the ids stood.
pub proof fn stream_ids_count_on(first: u32, k: nat)
    ensures
        nth_stream_id(first, 0) == first,
        nth_stream_id(nth_stream_id(first, k), 1) == nth_stream_id(first, k + 1),
{
}

/// Of the first 2^31 ids no two are the same.
pub proof fn stream_ids_are_distinct(first: u32, i: nat, j: nat)
    requires
        i < j < 0x8000_0000,
    ensures
        nth_stream_id(first, i) != nth_stream_id(first, j),
{
}

/// All ids of one end are odd or all are even.
pub proof fn stream_ids_keep_their_parity(first: u32, k: nat)
    ensures
        nth_stream_id(first, k) % 2 == first % 2,
{
}

/// Two ends of which one starts at an odd and one at an even number never use the same id.
pub proof fn two_ends_use_different_ids(first: u32, other_first: u32, i: nat, j: nat)
    requires
        first % 2 != other_first % 2,
    ensures
        nth_stream_id(first, i) != nth_stream_id(other_first, j),
{
    stream_ids_keep_their_parity(first, i);
    stream_ids_keep_their_parity(other_first, j);
}

} // verus!
