//! The record that the sender keeps of a packet it has sent.

use vstd::prelude::*;
use crate::packet::{Number, Type};

verus! {

/// A packet that was sent and whose fate is not yet known.
#[derive(Clone, Copy, Debug, PartialEq, Eq, Structural)]
pub struct Packet {
    pub packet_type: Type,
    pub pn: Number,
    pub ecn_marked_ect0: bool,
}

impl Packet {
    /// The record of the packet with the number `pn` and the type
    /// `packet_type`, sent in a datagram that was marked ECT(0) or was not.
    pub fn new(packet_type: Type, pn: Number, ecn_marked_ect0: bool) -> (packet: Packet)
        ensures
            packet == (Packet { packet_type, pn, ecn_marked_ect0 }),
    {
        Packet { packet_type, pn, ecn_marked_ect0 }
    }

    /// The type of the packet.
    pub fn packet_type(&self) -> (packet_type: Type)
        ensures
            packet_type == self.packet_type,
    {
        self.packet_type
    }

    /// The number of the packet.
    pub fn pn(&self) -> (pn: Number)
        ensures
            pn == self.pn,
    {
        self.pn
    }

    /// Whether the datagram that carried the packet was marked ECT(0).
    pub fn ecn_marked_ect0(&self) -> (marked: bool)
        ensures
            marked == self.ecn_marked_ect0,
    {
        self.ecn_marked_ect0
    }
}

/// The test that picks the packets sent in a datagram marked ECT(0).
pub open spec fn is_marked_ect0() -> spec_fn(Packet) -> bool {
    |p: Packet| p.ecn_marked_ect0
}

/// How many of `packets` were sent in a datagram marked ECT(0).
pub open spec fn marked_ect0(packets: Seq<Packet>) -> nat {
    packets.filter(is_marked_ect0()).len()
}

/// Counts the packets of `packets` that were sent in a datagram marked ECT(0).
pub fn count_marked_ect0(packets: &[Packet]) -> (n: u64)
    ensures
        n == marked_ect0(packets@),
{
    let mut n: u64 = 0;
    let mut i: usize = 0;
    proof {
        assert(packets@.take(0) =~= Seq::<Packet>::empty());
        reveal(Seq::filter);
    }
    while i < packets.len()
        invariant
            i <= packets.len(),
            n <= i,
            n == marked_ect0(packets@.take(i as int)),
        decreases packets.len() - i,
    {
        proof {
            let seen = packets@.take(i as int);
            assert(packets@.take(i + 1) =~= seen.push(packets@[i as int]));
            seen.lemma_filter_len_push(is_marked_ect0(), packets@[i as int]);
        }
        if packets[i].ecn_marked_ect0() {
            n = n + 1;
        }
        i = i + 1;
    }
    proof {
        assert(packets@.take(i as int) =~= packets@);
    }
    n
}

} // verus!
