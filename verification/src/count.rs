//! A bank of four counters, one for each ECN codepoint.

use vstd::prelude::*;
use crate::codepoint::Ecn;

verus! {

/// The counts of datagrams seen with each ECN codepoint.
///
/// The bank always holds one counter for every codepoint. Counts that a peer
/// echoes in an ACK frame never carry a count for [`Ecn::NotEct`], which is
/// then zero.
#[derive(Clone, Copy, Debug, PartialEq, Eq, Structural)]
pub struct Count {
    pub not_ect: u64,
    pub ect1: u64,
    pub ect0: u64,
    pub ce: u64,
}

/// The difference of two counters that stops at zero.
pub open spec fn floor_sub(a: nat, b: nat) -> nat {
    if a >= b {
        (a - b) as nat
    } else {
        0
    }
}

/// The bank that holds `floor_sub(a[c], b[c])` for every codepoint `c`.
pub open spec fn difference(a: Map<Ecn, nat>, b: Map<Ecn, nat>) -> Map<Ecn, nat> {
    Map::total(|c: Ecn| floor_sub(a[c], b[c]))
}

/// The bank that agrees with `m` everywhere but at `at`, where it is one higher.
pub open spec fn bumped(m: Map<Ecn, nat>, at: Ecn) -> Map<Ecn, nat> {
    Map::total(|c: Ecn| if c == at { m[c] + 1 } else { m[c] })
}

/// The bank with the four given counts.
pub open spec fn bank(not_ect: nat, ect0: nat, ect1: nat, ce: nat) -> Map<Ecn, nat> {
    Map::total(
        |c: Ecn|
            match c {
                Ecn::NotEct => not_ect,
                Ecn::Ect0 => ect0,
                Ecn::Ect1 => ect1,
                Ecn::Ce => ce,
            },
    )
}

impl View for Count {
    type V = Map<Ecn, nat>;

    /// The mapping from each codepoint to its count.
    open spec fn view(&self) -> Map<Ecn, nat> {
        bank(self.not_ect as nat, self.ect0 as nat, self.ect1 as nat, self.ce as nat)
    }
}

impl Default for Count {
    fn default() -> (zero: Count)
        ensures
            zero@ == bank(0, 0, 0, 0),
    {
        let zero = Count { not_ect: 0, ect1: 0, ect0: 0, ce: 0 };
        assert(zero@ =~= bank(0, 0, 0, 0));
        zero
    }
}

impl Count {
    /// Makes a bank from four counts, given in the order Not-ECT, ECT(0),
    /// ECT(1), CE.
    pub fn new(not_ect: u64, ect0: u64, ect1: u64, ce: u64) -> (count: Count)
        ensures
            count@ == bank(not_ect as nat, ect0 as nat, ect1 as nat, ce as nat),
    {
        Count { not_ect, ect1, ect0, ce }
    }

    /// The count kept for `codepoint`.
    pub fn get(&self, codepoint: Ecn) -> (n: u64)
        ensures
            n == self@[codepoint],
    {
        match codepoint {
            Ecn::NotEct => self.not_ect,
            Ecn::Ect1 => self.ect1,
            Ecn::Ect0 => self.ect0,
            Ecn::Ce => self.ce,
        }
    }

    /// Whether any of the ECT(0), ECT(1) or CE counts is non-zero.
    pub fn is_some(&self) -> (some: bool)
        ensures
            some <==> self@[Ecn::Ect0] > 0 || self@[Ecn::Ect1] > 0 || self@[Ecn::Ce] > 0,
    {
        self.ect0 > 0 || self.ect1 > 0 || self.ce > 0
    }

    /// Whether all four counts are zero, the one for Not-ECT included.
    pub fn is_empty(&self) -> (empty: bool)
        ensures
            empty <==> forall|c: Ecn| self@[c] == 0,
    {
        let empty = self.not_ect == 0 && self.ect1 == 0 && self.ect0 == 0 && self.ce == 0;
        proof {
            if !empty {
                assert(self@[Ecn::NotEct] != 0 || self@[Ecn::Ect1] != 0 || self@[Ecn::Ect0] != 0
                    || self@[Ecn::Ce] != 0);
            }
        }
        empty
    }

    /// Counts one more datagram with `codepoint`. A count that is already
    /// the largest that 64 bits hold stays as it is.
    pub fn increment(&mut self, codepoint: Ecn)
        ensures
            final(self)@ == if old(self)@[codepoint] < u64::MAX {
                bumped(old(self)@, codepoint)
            } else {
                old(self)@
            },
    {
        match codepoint {
            Ecn::NotEct => {
                self.not_ect = self.not_ect.saturating_add(1);
            },
            Ecn::Ect1 => {
                self.ect1 = self.ect1.saturating_add(1);
            },
            Ecn::Ect0 => {
                self.ect0 = self.ect0.saturating_add(1);
            },
            Ecn::Ce => {
                self.ce = self.ce.saturating_add(1);
            },
        }
        assert(old(self)@[codepoint] < u64::MAX ==> self@ =~= bumped(old(self)@, codepoint));
        assert(old(self)@[codepoint] == u64::MAX ==> self@ =~= old(self)@);
    }
}

impl core::ops::Sub for Count {
    type Output = Count;

    /// Subtracts the counts of `rhs` from those of `self`, codepoint by
    /// codepoint. A count that would fall below zero is zero.
    fn sub(self, rhs: Count) -> (diff: Count)
        ensures
            diff@ == difference(self@, rhs@),
    {
        let diff = Count {
            not_ect: self.not_ect.saturating_sub(rhs.not_ect),
            ect1: self.ect1.saturating_sub(rhs.ect1),
            ect0: self.ect0.saturating_sub(rhs.ect0),
            ce: self.ce.saturating_sub(rhs.ce),
        };
        assert(diff@ =~= difference(self@, rhs@));
        diff
    }
}

impl vstd::std_specs::ops::SubSpecImpl for Count {
    open spec fn obeys_sub_spec() -> bool {
        true
    }

    open spec fn sub_req(self, rhs: Count) -> bool {
        true
    }

    open spec fn sub_spec(self, rhs: Count) -> Count {
        Count {
            not_ect: floor_sub(self.not_ect as nat, rhs.not_ect as nat) as u64,
            ect1: floor_sub(self.ect1 as nat, rhs.ect1 as nat) as u64,
            ect0: floor_sub(self.ect0 as nat, rhs.ect0 as nat) as u64,
            ce: floor_sub(self.ce as nat, rhs.ce as nat) as u64,
        }
    }
}

} // verus!
