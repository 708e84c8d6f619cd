//! The ECN codepoints of the IP header.

use vstd::prelude::*;

verus! {

/// The value of the two ECN bits of an IP header.
///
/// An endpoint that validates a path marks its own datagrams with
/// [`Ecn::NotEct`] or [`Ecn::Ect0`] only. [`Ecn::Ect1`] and [`Ecn::Ce`] reach
/// it solely through the counters that a peer reports.
#[derive(Clone, Copy, Debug, PartialEq, Eq, Structural, Hash)]
pub enum Ecn {
    /// Not ECN-capable transport.
    NotEct,
    /// ECN-capable transport, codepoint 1.
    Ect1,
    /// ECN-capable transport, codepoint 0.
    Ect0,
    /// Congestion experienced.
    Ce,
}

} // verus!
