//! The record that a connection keeps of ECN validation on one of its paths.

use vstd::prelude::*;
use crate::codepoint::Ecn;
use crate::count::Count;
use crate::model::{ack_view, Event, InfoView};
use crate::packet::{Number, Type};
use crate::sent::{count_marked_ect0, Packet};
use crate::stats::Stats;
use crate::validation::{
    ValidationError,
    ValidationOutcome,
    ValidationState,
    TEST_COUNT,
    TEST_COUNT_INITIAL_PHASE,
};

verus! {

/// The state of ECN validation on a path.
///
/// A path starts under test. Every path of a connection has a record of its
/// own, and a path that the connection migrates to starts anew.
#[derive(Debug)]
pub struct Info {
    /// The phase of validation that the path is in.
    pub state: ValidationState,
    /// The number of the newest packet whose acknowledgement was validated.
    pub largest_acked: Number,
    /// The counts that came with that acknowledgement.
    pub baseline: Count,
}

impl View for Info {
    type V = InfoView;

    open spec fn view(&self) -> InfoView {
        InfoView {
            state: self.state@,
            largest_acked: self.largest_acked as nat,
            baseline: self.baseline@,
        }
    }
}

impl Default for Info {
    fn default() -> (info: Info)
        ensures
            info@ == InfoView::initial(),
    {
        Info { state: ValidationState::default(), largest_acked: 0, baseline: Count::default() }
    }
}

impl Info {
    /// Replaces the baseline, the counts of the last ACK frame that counted.
    pub fn set_baseline(&mut self, baseline: Count)
        ensures
            final(self)@ == old(self)@.after(Event::Rebased { baseline: baseline@ }),
    {
        self.baseline = baseline;
    }

    /// The baseline: the counts that came with the last acknowledgement that
    /// was validated.
    pub fn baseline(&self) -> (baseline: Count)
        ensures
            baseline == self.baseline,
    {
        self.baseline
    }

    /// Counts `num_datagrams` datagrams that were sent on the path. While the
    /// path is under test they are probes, and the test ends once
    /// [`TEST_COUNT`] of them were sent. The end of the test changes no
    /// statistics.
    pub fn on_packet_sent(&mut self, num_datagrams: usize, stats: &mut Stats)
        ensures
            final(self)@ == old(self)@.after(Event::Sent { num_datagrams: num_datagrams as nat }),
            final(stats)@ == old(stats)@,
    {
        if let ValidationState::Testing { probes_sent, initial_probes_acked, initial_probes_lost } =
            self.state {
            if probes_sent >= TEST_COUNT || num_datagrams >= TEST_COUNT - probes_sent {
                self.state.set(ValidationState::Unknown, stats);
            } else {
                self.state = ValidationState::Testing {
                    probes_sent: probes_sent + num_datagrams,
                    initial_probes_acked,
                    initial_probes_lost,
                };
            }
        }
    }

    /// Gives up ECN on the path for the reason `reason`, and counts the path
    /// under that reason in `stats`.
    ///
    /// A path fails once: the path must not have failed already. The counts
    /// of `stats` must have room for the change.
    pub fn disable_ecn(&mut self, stats: &mut Stats, reason: ValidationError)
        requires
            old(self)@.admits(Event::Disabled { reason }),
            old(stats)@.after(old(self)@, Event::Disabled { reason }).representable(),
        ensures
            final(self)@ == old(self)@.after(Event::Disabled { reason }),
            final(stats)@ == old(stats)@.after(old(self)@, Event::Disabled { reason }),
    {
        proof {
            let left = stats@.left(self@.state);
            let moved = stats@.after(self@, Event::Disabled { reason });
            assert forall|outcome: ValidationOutcome|
                0 <= #[trigger] left.validation[outcome] <= u64::MAX by {
                if outcome == ValidationOutcome::Capable {
                    assert(left.validation[outcome] == moved.validation[outcome]);
                } else {
                    assert(left.validation[outcome] == stats@.validation[outcome]);
                }
            }
        }
        self.state.set(ValidationState::Failed(reason), stats);
    }

    /// Takes in an ACK frame that newly acknowledges `acked_packets`, the
    /// first of which is the newest, and that reports the counts `ack_ecn`.
    /// Returns whether the frame shows new CE marks on a path that is then
    /// known to be capable.
    ///
    /// An ACK frame that does not raise the number of the newest packet
    /// acknowledged changes nothing, and neither does one that comes while
    /// the path is under test or after it has failed. The counts of `stats`
    /// must have room for the change of state that the frame brings.
    pub fn on_packets_acked(
        &mut self,
        acked_packets: &[Packet],
        ack_ecn: Option<&Count>,
        stats: &mut Stats,
    ) -> (new_ce: bool)
        requires
            acked_packets@.len() > 0,
            old(stats)@.after(
                old(self)@,
                Event::Acked { ack: ack_view(acked_packets@, ack_ecn) },
            ).representable(),
        ensures
            final(self)@ == old(self)@.after(
                Event::Acked { ack: ack_view(acked_packets@, ack_ecn) },
            ),
            final(stats)@ == old(stats)@.after(
                old(self)@,
                Event::Acked { ack: ack_view(acked_packets@, ack_ecn) },
            ),
            new_ce == old(self)@.congestion_seen(ack_view(acked_packets@, ack_ecn)),
            acked_packets@[0].pn <= old(self).largest_acked ==> final(self)@ == old(self)@
                && final(stats)@ == old(stats)@ && !new_ce,
    {
        let prev_baseline = self.baseline;

        self.validate_ack_ecn_and_update(acked_packets, ack_ecn, stats);

        let capable = match self.state {
            ValidationState::Capable => true,
            _ => false,
        };
        capable && (self.baseline - prev_baseline).get(Ecn::Ce) > 0
    }

    /// Counts the acknowledgement of a probe that was marked ECT(0).
    ///
    /// The count must fit a `usize`.
    pub fn acked_ecn(&mut self)
        requires
            old(self)@.after(Event::ProbeAcked).representable(),
        ensures
            final(self)@ == old(self)@.after(Event::ProbeAcked),
    {
        if let ValidationState::Testing { probes_sent, initial_probes_acked, initial_probes_lost } =
            self.state {
            self.state = ValidationState::Testing {
                probes_sent,
                initial_probes_acked: initial_probes_acked + 1,
                initial_probes_lost,
            };
        }
    }

    /// Counts the loss of a packet of type `pt` that was marked ECT(0).
    ///
    /// Only Initial packets count, and only while the path is under test.
    /// When [`TEST_COUNT_INITIAL_PHASE`] of them are lost and none was
    /// acknowledged, the path drops marked packets, and it fails as a black
    /// hole. The count of losses must fit a `usize`, and the counts of
    /// `stats` must have room for a failure.
    pub fn lost_ecn(&mut self, pt: Type, stats: &mut Stats)
        requires
            old(self)@.after(Event::ProbeLost { packet_type: pt }).representable(),
            old(stats)@.after(old(self)@, Event::ProbeLost { packet_type: pt }).representable(),
        ensures
            final(self)@ == old(self)@.after(Event::ProbeLost { packet_type: pt }),
            final(stats)@ == old(stats)@.after(old(self)@, Event::ProbeLost { packet_type: pt }),
    {
        if pt != Type::Initial {
            return ;
        }
        if let ValidationState::Testing { probes_sent, initial_probes_acked, initial_probes_lost } =
            self.state {
            // Once all Initial probes were lost a number of times, the path is
            // taken to drop every marked packet.
            if initial_probes_acked == 0 && initial_probes_lost == TEST_COUNT_INITIAL_PHASE - 1 {
                self.disable_ecn(stats, ValidationError::BlackHole);
            } else {
                self.state = ValidationState::Testing {
                    probes_sent,
                    initial_probes_acked,
                    initial_probes_lost: initial_probes_lost + 1,
                };
            }
        }
    }

    /// Validates the counts of an ACK frame against the baseline, moves the
    /// path to the state that they call for, and makes them the baseline.
    fn validate_ack_ecn_and_update(
        &mut self,
        acked_packets: &[Packet],
        ack_ecn: Option<&Count>,
        stats: &mut Stats,
    )
        requires
            acked_packets@.len() > 0,
            old(stats)@.after(
                old(self)@,
                Event::Acked { ack: ack_view(acked_packets@, ack_ecn) },
            ).representable(),
        ensures
            final(self)@ == old(self)@.after(
                Event::Acked { ack: ack_view(acked_packets@, ack_ecn) },
            ),
            final(stats)@ == old(stats)@.after(
                old(self)@,
                Event::Acked { ack: ack_view(acked_packets@, ack_ecn) },
            ),
    {
        let ghost ack = ack_view(acked_packets@, ack_ecn);
        // Counts from a reordered ACK frame may be stale. Validation never
        // fails on a frame that does not raise the largest acknowledged
        // packet number.
        let largest_acked = &acked_packets[0];
        if largest_acked.pn() <= self.largest_acked {
            return ;
        }
        // Only a path whose test has ended and that has not failed is
        // validated.
        match self.state {
            ValidationState::Testing { .. } | ValidationState::Failed(_) => {
                return ;
            },
            ValidationState::Unknown | ValidationState::Capable => {},
        }

        // Marked packets were acknowledged, so the frame has to report counts.
        let ack_ecn = match ack_ecn {
            Some(counts) => *counts,
            None => {
                self.disable_ecn(stats, ValidationError::Bleaching);
                return ;
            },
        };
        stats.ecn_tx_acked.set(largest_acked.packet_type(), ack_ecn);
        assert(stats@ =~~= old(stats)@.reported(ack.packet_type, ack.ecn->0));

        // Only ECT(0) is ever sent, so only packets with that mark count.
        let newly_acked_sent_with_ect0 = count_marked_ect0(acked_packets);
        if newly_acked_sent_with_ect0 == 0 {
            self.disable_ecn(stats, ValidationError::Bleaching);
            return ;
        }
        // The counts for ECT(0) and CE together must have risen by the number
        // of marked packets that the frame newly acknowledges, at least. A
        // sum that does not fit 64 bits is above any such number.
        let ecn_diff = ack_ecn - self.baseline;
        let accounted = match ecn_diff.get(Ecn::Ect0).checked_add(ecn_diff.get(Ecn::Ce)) {
            Some(sum_inc) => sum_inc >= newly_acked_sent_with_ect0,
            None => true,
        };
        if !accounted {
            self.disable_ecn(stats, ValidationError::Bleaching);
        } else if ecn_diff.get(Ecn::Ect1) > 0 {
            self.disable_ecn(stats, ValidationError::ReceivedUnsentECT1);
        } else if self.state != ValidationState::Capable {
            self.state.set(ValidationState::Capable, stats);
        }
        self.baseline = ack_ecn;
        self.largest_acked = largest_acked.pn();
        assert(self@ =~~= old(self)@.after(Event::Acked { ack }));
        assert(stats@ =~~= old(stats)@.after(old(self)@, Event::Acked { ack }));
    }

    /// Whether datagrams sent on the path are marked: they are while the
    /// path is under test and once it is known to be capable.
    pub fn is_marking(&self) -> (marking: bool)
        ensures
            marking == self@.marking(),
    {
        match self.state {
            ValidationState::Testing { .. } | ValidationState::Capable => true,
            ValidationState::Failed(_) | ValidationState::Unknown => false,
        }
    }

    /// The codepoint to mark the next outgoing datagram with: ECT(0) where
    /// the path is marking, Not-ECT where it is not.
    pub fn ecn_mark(&self) -> (mark: Ecn)
        ensures
            mark == if self@.marking() {
                Ecn::Ect0
            } else {
                Ecn::NotEct
            },
    {
        if self.is_marking() {
            Ecn::Ect0
        } else {
            Ecn::NotEct
        }
    }
}

} // verus!
