//! The phases of ECN validation on a path, and the ways in which it fails.

use vstd::prelude::*;
use crate::stats::Stats;

verus! {

/// The number of probes to send on a path before its testing phase ends.
pub const TEST_COUNT: usize = 10;

/// The number of Initial probes whose loss, with none acknowledged, ends the
/// testing phase at once. It is lower than [`TEST_COUNT`] so that a path that
/// drops marked packets does not hold up the handshake.
pub const TEST_COUNT_INITIAL_PHASE: usize = 3;

/// Why a path was found unfit for ECN.
#[derive(Clone, Copy, Debug, PartialEq, Eq, Structural, Hash)]
pub enum ValidationError {
    /// The path drops marked packets.
    BlackHole,
    /// The path clears the marks.
    Bleaching,
    /// The peer reported ECT(1) marks, which were never sent.
    ReceivedUnsentECT1,
}

/// The verdict on a path, as statistics are kept of it.
#[derive(Clone, Copy, Debug, PartialEq, Eq, Structural, Hash)]
pub enum ValidationOutcome {
    Capable,
    NotCapable(ValidationError),
}

/// The phase of ECN validation that a path is in.
#[derive(Clone, Copy, Debug, PartialEq, Eq, Structural)]
pub enum ValidationState {
    /// The path is being tested: marked probes are sent and counted.
    Testing { probes_sent: usize, initial_probes_acked: usize, initial_probes_lost: usize },
    /// The test has ended, and the capability of the path is not yet known.
    Unknown,
    /// The path is not ECN-capable. No path ever leaves this state.
    Failed(ValidationError),
    /// The path is ECN-capable.
    Capable,
}

/// A [`ValidationState`] with its counters as natural numbers.
pub ghost enum StateView {
    Testing { probes_sent: nat, initial_probes_acked: nat, initial_probes_lost: nat },
    Unknown,
    Failed(ValidationError),
    Capable,
}

impl StateView {
    /// The state in which every path starts.
    pub open spec fn initial() -> StateView {
        StateView::Testing { probes_sent: 0, initial_probes_acked: 0, initial_probes_lost: 0 }
    }

    /// Whether `self` and `other` are the same phase of validation, whatever
    /// the counters of a test or the reason of a failure.
    pub open spec fn same_phase(self, other: StateView) -> bool {
        ||| self is Testing && other is Testing
        ||| self is Unknown && other is Unknown
        ||| self is Failed && other is Failed
        ||| self is Capable && other is Capable
    }

    /// Whether the counters of the state fit the machine's integers.
    pub open spec fn representable(self) -> bool {
        self matches StateView::Testing { probes_sent, initial_probes_acked, initial_probes_lost }
            ==> probes_sent <= usize::MAX && initial_probes_acked <= usize::MAX
            && initial_probes_lost <= usize::MAX
    }
}

impl View for ValidationState {
    type V = StateView;

    open spec fn view(&self) -> StateView {
        match *self {
            ValidationState::Testing { probes_sent, initial_probes_acked, initial_probes_lost } => {
                StateView::Testing {
                    probes_sent: probes_sent as nat,
                    initial_probes_acked: initial_probes_acked as nat,
                    initial_probes_lost: initial_probes_lost as nat,
                }
            },
            ValidationState::Unknown => StateView::Unknown,
            ValidationState::Failed(error) => StateView::Failed(error),
            ValidationState::Capable => StateView::Capable,
        }
    }
}

impl Default for ValidationState {
    fn default() -> (state: ValidationState)
        ensures
            state@ == StateView::initial(),
    {
        ValidationState::Testing { probes_sent: 0, initial_probes_acked: 0, initial_probes_lost: 0 }
    }
}

impl ValidationState {
    /// Moves to the state `new` and records the move in `stats`: a path that
    /// leaves `Capable` is taken off the tally of capable paths, one that
    /// enters it is put on, and one that fails is counted under its reason.
    ///
    /// `Failed` is final, so the state must not be `Failed` already.
    pub fn set(&mut self, new: ValidationState, stats: &mut Stats)
        requires
            !(*old(self) is Failed),
            old(stats)@.left(old(self)@).representable(),
            old(stats)@.moved(old(self)@, new@).representable(),
        ensures
            *final(self) == new,
            final(stats)@ == old(stats)@.moved(old(self)@, new@),
    {
        let old_state = *self;
        *self = new;
        match old_state {
            ValidationState::Capable => {
                assert(old(stats)@.left(old(self)@).validation[ValidationOutcome::Capable] >= 0);
                stats.ecn_path_validation.capable = stats.ecn_path_validation.capable - 1;
            },
            _ => {},
        }
        assert(stats@ =~~= old(stats)@.left(old(self)@));
        match new {
            ValidationState::Failed(error) => {
                assert(old(stats)@.moved(old(self)@, new@).validation[ValidationOutcome::NotCapable(
                    error,
                )] <= u64::MAX);
                match error {
                    ValidationError::BlackHole => {
                        stats.ecn_path_validation.black_hole = stats.ecn_path_validation.black_hole
                            + 1;
                    },
                    ValidationError::Bleaching => {
                        stats.ecn_path_validation.bleaching = stats.ecn_path_validation.bleaching
                            + 1;
                    },
                    ValidationError::ReceivedUnsentECT1 => {
                        stats.ecn_path_validation.received_unsent_ect1 =
                            stats.ecn_path_validation.received_unsent_ect1 + 1;
                    },
                }
            },
            ValidationState::Capable => {
                assert(old(stats)@.moved(old(self)@, new@).validation[ValidationOutcome::Capable]
                    <= u64::MAX);
                stats.ecn_path_validation.capable = stats.ecn_path_validation.capable + 1;
            },
            _ => {},
        }
        assert(stats@ =~~= old(stats)@.moved(old(self)@, new@));
    }
}

} // verus!
