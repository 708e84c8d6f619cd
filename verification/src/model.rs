//! The validation of a path as mathematics: what each event makes of the
//! record of a path and of the statistics.

use vstd::prelude::*;
use crate::codepoint::Ecn;
use crate::count::{bank, difference, Count};
use crate::packet::Type;
use crate::sent::{marked_ect0, Packet};
use crate::stats::StatsView;
use crate::validation::{
    StateView,
    ValidationError,
    TEST_COUNT,
    TEST_COUNT_INITIAL_PHASE,
};

verus! {

/// What validation reads in an ACK frame and in the packets that the frame
/// newly acknowledges.
pub ghost struct AckView {
    /// The number of the newest packet among those acknowledged.
    pub largest: nat,
    /// The type of that packet.
    pub packet_type: Type,
    /// How many of the packets acknowledged were sent marked ECT(0).
    pub ect0_acked: nat,
    /// The counts that the peer reported, if it reported any.
    pub ecn: Option<Map<Ecn, nat>>,
}

/// What validation reads in the packets `acked_packets`, the first of which
/// is the newest, and in the counts `ack_ecn` that came with them.
pub open spec fn ack_view(acked_packets: Seq<Packet>, ack_ecn: Option<&Count>) -> AckView
    recommends
        acked_packets.len() > 0,
{
    AckView {
        largest: acked_packets[0].pn as nat,
        packet_type: acked_packets[0].packet_type,
        ect0_acked: marked_ect0(acked_packets),
        ecn: match ack_ecn {
            Some(counts) => Some(counts@),
            None => None,
        },
    }
}

/// What is known of a path: the phase of its validation, the number of the
/// newest packet whose acknowledgement was validated, and the counts that
/// came with that acknowledgement.
#[verifier::ext_equal]
pub ghost struct InfoView {
    pub state: StateView,
    pub largest_acked: nat,
    pub baseline: Map<Ecn, nat>,
}

impl InfoView {
    /// The record of a new path.
    pub open spec fn initial() -> InfoView {
        InfoView { state: StateView::initial(), largest_acked: 0, baseline: bank(0, 0, 0, 0) }
    }

    /// Whether the record fits the machine's integers.
    pub open spec fn representable(self) -> bool {
        &&& self.state.representable()
        &&& self.largest_acked <= u64::MAX
        &&& forall|c: Ecn| #[trigger] self.baseline[c] <= u64::MAX
    }

    /// Whether the path, if it is under test, has sent fewer probes than end
    /// the test. This holds of a new path, and no event ends it.
    pub open spec fn testing_within_budget(self) -> bool {
        self.state matches StateView::Testing { probes_sent, .. } ==> probes_sent < TEST_COUNT
    }

    /// Whether datagrams sent on the path are marked.
    pub open spec fn marking(self) -> bool {
        self.state is Testing || self.state is Capable
    }

    /// The record once `num_datagrams` more datagrams were sent. A path under
    /// test counts them as probes, and its test ends when it has sent
    /// [`TEST_COUNT`] of them.
    pub open spec fn sent(self, num_datagrams: nat) -> InfoView {
        match self.state {
            StateView::Testing { probes_sent, initial_probes_acked, initial_probes_lost } => {
                if probes_sent + num_datagrams >= TEST_COUNT {
                    InfoView { state: StateView::Unknown, ..self }
                } else {
                    InfoView {
                        state: StateView::Testing {
                            probes_sent: probes_sent + num_datagrams,
                            initial_probes_acked,
                            initial_probes_lost,
                        },
                        ..self
                    }
                }
            },
            _ => self,
        }
    }

    /// The record once a probe marked ECT(0) was acknowledged.
    pub open spec fn probe_acked(self) -> InfoView {
        match self.state {
            StateView::Testing { probes_sent, initial_probes_acked, initial_probes_lost } => {
                InfoView {
                    state: StateView::Testing {
                        probes_sent,
                        initial_probes_acked: initial_probes_acked + 1,
                        initial_probes_lost,
                    },
                    ..self
                }
            },
            _ => self,
        }
    }

    /// The record once a packet of type `packet_type` that was marked ECT(0)
    /// was declared lost. Only the loss of an Initial packet on a path under
    /// test counts. The path fails as a black hole with the loss that is its
    /// [`TEST_COUNT_INITIAL_PHASE`]th, if no probe was acknowledged so far.
    pub open spec fn probe_lost(self, packet_type: Type) -> InfoView {
        match self.state {
            StateView::Testing { probes_sent, initial_probes_acked, initial_probes_lost } => {
                if packet_type != Type::Initial {
                    self
                } else if initial_probes_acked == 0 && initial_probes_lost + 1
                    == TEST_COUNT_INITIAL_PHASE {
                    InfoView { state: StateView::Failed(ValidationError::BlackHole), ..self }
                } else {
                    InfoView {
                        state: StateView::Testing {
                            probes_sent,
                            initial_probes_acked,
                            initial_probes_lost: initial_probes_lost + 1,
                        },
                        ..self
                    }
                }
            },
            _ => self,
        }
    }

    /// The record once ECN was given up on the path for the reason `reason`.
    pub open spec fn disabled(self, reason: ValidationError) -> InfoView {
        InfoView { state: StateView::Failed(reason), ..self }
    }

    /// The record with `baseline` in place of its counts.
    pub open spec fn rebased(self, baseline: Map<Ecn, nat>) -> InfoView {
        InfoView { baseline, ..self }
    }

    /// Whether validation looks at `ack` at all: the ACK must raise the
    /// number of the newest packet acknowledged, and the path must have been
    /// tested and must not have failed.
    pub open spec fn examines(self, ack: AckView) -> bool {
        ack.largest > self.largest_acked && (self.state is Unknown || self.state is Capable)
    }

    /// What is wrong with an `ack` that validation looks at, if anything is.
    ///
    /// Marks were bleached if the ACK reports no counts, if it acknowledges
    /// no packet that was marked ECT(0), or if the counts for ECT(0) and CE
    /// rose by less than the number of such packets. Else, a rise of the
    /// count for ECT(1) is a mark that was never sent.
    ///
    /// To fail a path on an ACK that acknowledges no marked packet is more
    /// than RFC 9000 asks for: by its section 13.4.2.1 the counts of such an
    /// ACK cannot fall short. Whether the stricter rule troubles any peer
    /// is an open question.
    pub open spec fn objection(self, ack: AckView) -> Option<ValidationError> {
        match ack.ecn {
            None => Some(ValidationError::Bleaching),
            Some(counts) => {
                let rise = difference(counts, self.baseline);
                if ack.ect0_acked == 0 {
                    Some(ValidationError::Bleaching)
                } else if rise[Ecn::Ect0] + rise[Ecn::Ce] < ack.ect0_acked {
                    Some(ValidationError::Bleaching)
                } else if rise[Ecn::Ect1] > 0 {
                    Some(ValidationError::ReceivedUnsentECT1)
                } else {
                    None
                }
            },
        }
    }

    /// Whether the counts of `ack` replace the baseline: validation must
    /// look at the ACK and get as far as comparing its counts.
    pub open spec fn adopts(self, ack: AckView) -> bool {
        self.examines(ack) && ack.ecn is Some && ack.ect0_acked > 0
    }

    /// The record once `ack` was received.
    pub open spec fn acked(self, ack: AckView) -> InfoView {
        if !self.examines(ack) {
            self
        } else {
            let state = match self.objection(ack) {
                Some(error) => StateView::Failed(error),
                None => StateView::Capable,
            };
            if self.adopts(ack) {
                InfoView { state, largest_acked: ack.largest, baseline: ack.ecn->0 }
            } else {
                InfoView { state, ..self }
            }
        }
    }

    /// Whether `ack` shows new CE marks on a path that is capable once the
    /// ACK was received.
    pub open spec fn congestion_seen(self, ack: AckView) -> bool {
        let next = self.acked(ack);
        next.state is Capable && difference(next.baseline, self.baseline)[Ecn::Ce] > 0
    }

    /// Whether `event` may happen to the path. ECN is given up once only:
    /// on a path that has failed it cannot be given up again.
    pub open spec fn admits(self, event: Event) -> bool {
        event is Disabled ==> !(self.state is Failed)
    }

    /// The record once `event` has happened to the path.
    pub open spec fn after(self, event: Event) -> InfoView {
        match event {
            Event::Sent { num_datagrams } => self.sent(num_datagrams),
            Event::ProbeAcked => self.probe_acked(),
            Event::ProbeLost { packet_type } => self.probe_lost(packet_type),
            Event::Disabled { reason } => self.disabled(reason),
            Event::Acked { ack } => self.acked(ack),
            Event::Rebased { baseline } => self.rebased(baseline),
        }
    }
}

/// Something that happens to a path and that its validation is told of.
/// Each event is one call of a method of [`Info`](crate::info::Info).
pub ghost enum Event {
    /// Datagrams were sent on the path: `on_packet_sent`.
    Sent { num_datagrams: nat },
    /// A probe marked ECT(0) was acknowledged: `acked_ecn`.
    ProbeAcked,
    /// A packet marked ECT(0) was declared lost: `lost_ecn`.
    ProbeLost { packet_type: Type },
    /// ECN was given up on the path: `disable_ecn`.
    Disabled { reason: ValidationError },
    /// An ACK frame was received: `on_packets_acked`.
    Acked { ack: AckView },
    /// The baseline was replaced: `set_baseline`.
    Rebased { baseline: Map<Ecn, nat> },
}

impl StatsView {
    /// The statistics once a path that was in the state `from` is in the
    /// state `to`. They change where the path has changed its phase, and
    /// then as a move from `from` to `to` changes them.
    pub open spec fn followed(self, from: StateView, to: StateView) -> StatsView {
        if from.same_phase(to) {
            self
        } else {
            self.moved(from, to)
        }
    }

    /// The statistics once `event` has happened to the path with the record
    /// `info`. The counts of an ACK frame that validation looks at are kept
    /// under the type of the newest packet of the frame. Then the
    /// statistics follow the path to its next state.
    pub open spec fn after(self, info: InfoView, event: Event) -> StatsView {
        let kept = match event {
            Event::Acked { ack } if info.examines(ack) && ack.ecn is Some => self.reported(
                ack.packet_type,
                ack.ecn->0,
            ),
            _ => self,
        };
        kept.followed(info.state, info.after(event).state)
    }
}

/// A path together with the statistics that it is counted in.
#[verifier::ext_equal]
pub ghost struct PathView {
    pub info: InfoView,
    pub stats: StatsView,
}

impl PathView {
    /// The path once `event` has happened to it.
    pub open spec fn after(self, event: Event) -> PathView {
        PathView { info: self.info.after(event), stats: self.stats.after(self.info, event) }
    }

    /// The path once all of `events` have happened to it, the first of them
    /// first.
    pub open spec fn after_all(self, events: Seq<Event>) -> PathView
        decreases events.len(),
    {
        if events.len() == 0 {
            self
        } else {
            self.after_all(events.drop_last()).after(events.last())
        }
    }

    /// Whether `events` may happen to the path one after the other.
    pub open spec fn admits_all(self, events: Seq<Event>) -> bool {
        forall|i: int|
            0 <= i < events.len() ==> #[trigger] self.after_all(events.take(i)).info.admits(
                events[i],
            )
    }
}

} // verus!
