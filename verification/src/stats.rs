//! The statistics that ECN validation keeps: how many paths are capable, how
//! many failed and why, and the counts that peers last reported.

use vstd::prelude::*;
use crate::codepoint::Ecn;
use crate::count::Count;
use crate::packet::Type;
use crate::validation::{StateView, ValidationError, ValidationOutcome};

verus! {

/// How many paths met each outcome of ECN validation.
///
/// The count for [`ValidationOutcome::Capable`] is a tally of the paths that
/// are capable at the moment. The counts for the failures only grow.
#[derive(Clone, Copy, Debug, PartialEq, Eq, Structural)]
pub struct ValidationCount {
    pub capable: u64,
    pub black_hole: u64,
    pub bleaching: u64,
    pub received_unsent_ect1: u64,
}

impl View for ValidationCount {
    type V = Map<ValidationOutcome, int>;

    /// The mapping from each outcome to its count.
    open spec fn view(&self) -> Map<ValidationOutcome, int> {
        Map::total(
            |outcome: ValidationOutcome|
                match outcome {
                    ValidationOutcome::Capable => self.capable as int,
                    ValidationOutcome::NotCapable(ValidationError::BlackHole) => self.black_hole as int,
                    ValidationOutcome::NotCapable(ValidationError::Bleaching) => self.bleaching as int,
                    ValidationOutcome::NotCapable(ValidationError::ReceivedUnsentECT1) => {
                        self.received_unsent_ect1 as int
                    },
                },
        )
    }
}

impl Default for ValidationCount {
    fn default() -> (zero: ValidationCount)
        ensures
            forall|outcome: ValidationOutcome| zero@[outcome] == 0,
    {
        ValidationCount { capable: 0, black_hole: 0, bleaching: 0, received_unsent_ect1: 0 }
    }
}

impl ValidationCount {
    /// The count kept for `outcome`.
    pub fn get(&self, outcome: ValidationOutcome) -> (n: u64)
        ensures
            n == self@[outcome],
    {
        match outcome {
            ValidationOutcome::Capable => self.capable,
            ValidationOutcome::NotCapable(ValidationError::BlackHole) => self.black_hole,
            ValidationOutcome::NotCapable(ValidationError::Bleaching) => self.bleaching,
            ValidationOutcome::NotCapable(ValidationError::ReceivedUnsentECT1) => {
                self.received_unsent_ect1
            },
        }
    }
}

/// One bank of ECN counts for each type of packet.
#[derive(Clone, Copy, Debug, PartialEq, Eq, Structural)]
pub struct CountsByType {
    pub version_negotiation: Count,
    pub initial: Count,
    pub handshake: Count,
    pub zero_rtt: Count,
    pub retry: Count,
    pub short: Count,
    pub other_version: Count,
}

impl CountsByType {
    /// The bank kept for `packet_type`.
    pub open spec fn spec_get(self, packet_type: Type) -> Count {
        match packet_type {
            Type::VersionNegotiation => self.version_negotiation,
            Type::Initial => self.initial,
            Type::Handshake => self.handshake,
            Type::ZeroRtt => self.zero_rtt,
            Type::Retry => self.retry,
            Type::Short => self.short,
            Type::OtherVersion => self.other_version,
        }
    }

    /// The bank kept for `packet_type`.
    pub fn get(&self, packet_type: Type) -> (count: Count)
        ensures
            count == self.spec_get(packet_type),
            count@ == self@[packet_type],
    {
        match packet_type {
            Type::VersionNegotiation => self.version_negotiation,
            Type::Initial => self.initial,
            Type::Handshake => self.handshake,
            Type::ZeroRtt => self.zero_rtt,
            Type::Retry => self.retry,
            Type::Short => self.short,
            Type::OtherVersion => self.other_version,
        }
    }

    /// Replaces the bank kept for `packet_type` by `count`.
    pub fn set(&mut self, packet_type: Type, count: Count)
        ensures
            final(self)@ == old(self)@.insert(packet_type, count@),
    {
        match packet_type {
            Type::VersionNegotiation => {
                self.version_negotiation = count;
            },
            Type::Initial => {
                self.initial = count;
            },
            Type::Handshake => {
                self.handshake = count;
            },
            Type::ZeroRtt => {
                self.zero_rtt = count;
            },
            Type::Retry => {
                self.retry = count;
            },
            Type::Short => {
                self.short = count;
            },
            Type::OtherVersion => {
                self.other_version = count;
            },
        }
        assert(self@ =~= old(self)@.insert(packet_type, count@));
    }
}

impl View for CountsByType {
    type V = Map<Type, Map<Ecn, nat>>;

    /// The mapping from each packet type to the view of its bank.
    open spec fn view(&self) -> Map<Type, Map<Ecn, nat>> {
        Map::total(|packet_type: Type| self.spec_get(packet_type)@)
    }
}

impl Default for CountsByType {
    fn default() -> (zero: CountsByType)
        ensures
            forall|packet_type: Type, codepoint: Ecn| zero@[packet_type][codepoint] == 0,
    {
        let none = Count::default();
        CountsByType {
            version_negotiation: none,
            initial: none,
            handshake: none,
            zero_rtt: none,
            retry: none,
            short: none,
            other_version: none,
        }
    }
}

/// The statistics that validation updates. One value may serve many paths.
#[derive(Clone, Copy, Debug, PartialEq, Eq, Structural)]
pub struct Stats {
    /// The outcomes of validation, path by path.
    pub ecn_path_validation: ValidationCount,
    /// The counts that a peer last reported and validation looked at, by the
    /// type of the newest packet that the report acknowledged.
    pub ecn_tx_acked: CountsByType,
}

/// What [`Stats`] holds, as mappings.
#[verifier::ext_equal]
pub ghost struct StatsView {
    pub validation: Map<ValidationOutcome, int>,
    pub tx_acked: Map<Type, Map<Ecn, nat>>,
}

impl View for Stats {
    type V = StatsView;

    open spec fn view(&self) -> StatsView {
        StatsView { validation: self.ecn_path_validation@, tx_acked: self.ecn_tx_acked@ }
    }
}

impl Default for Stats {
    fn default() -> (zero: Stats)
        ensures
            forall|outcome: ValidationOutcome| zero@.validation[outcome] == 0,
            forall|packet_type: Type, codepoint: Ecn| zero@.tx_acked[packet_type][codepoint] == 0,
    {
        Stats {
            ecn_path_validation: ValidationCount::default(),
            ecn_tx_acked: CountsByType::default(),
        }
    }
}

impl StatsView {
    /// Whether every count of outcomes fits an unsigned 64-bit integer.
    pub open spec fn representable(self) -> bool {
        forall|outcome: ValidationOutcome| 0 <= #[trigger] self.validation[outcome] <= u64::MAX
    }

    /// The statistics once a path has left the state `from`: leaving
    /// `Capable` takes one off the tally of capable paths.
    pub open spec fn left(self, from: StateView) -> StatsView {
        if from is Capable {
            StatsView {
                validation: self.validation.insert(
                    ValidationOutcome::Capable,
                    self.validation[ValidationOutcome::Capable] - 1,
                ),
                ..self
            }
        } else {
            self
        }
    }

    /// The statistics once a path has entered the state `to`: entering
    /// `Capable` adds one to the tally of capable paths, and entering
    /// `Failed` adds one to the count of its reason.
    pub open spec fn entered(self, to: StateView) -> StatsView {
        match to {
            StateView::Capable => StatsView {
                validation: self.validation.insert(
                    ValidationOutcome::Capable,
                    self.validation[ValidationOutcome::Capable] + 1,
                ),
                ..self
            },
            StateView::Failed(error) => StatsView {
                validation: self.validation.insert(
                    ValidationOutcome::NotCapable(error),
                    self.validation[ValidationOutcome::NotCapable(error)] + 1,
                ),
                ..self
            },
            _ => self,
        }
    }

    /// The statistics once a path has moved from the state `from` to `to`.
    pub open spec fn moved(self, from: StateView, to: StateView) -> StatsView {
        self.left(from).entered(to)
    }

    /// The statistics once `counts`, reported by a peer, were looked at for
    /// an ACK whose newest packet has the type `packet_type`.
    pub open spec fn reported(self, packet_type: Type, counts: Map<Ecn, nat>) -> StatsView {
        StatsView { tx_acked: self.tx_acked.insert(packet_type, counts), ..self }
    }
}

} // verus!
