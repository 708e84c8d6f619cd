//! What the validation needs to know of a QUIC packet's header.

use vstd::prelude::*;

verus! {

/// A packet number.
pub type Number = u64;

/// The type of a QUIC packet.
#[derive(Clone, Copy, Debug, PartialEq, Eq, Structural, Hash)]
pub enum Type {
    VersionNegotiation,
    Initial,
    Handshake,
    ZeroRtt,
    Retry,
    Short,
    OtherVersion,
}

} // verus!
