use ecn_validation::codepoint::Ecn;
use ecn_validation::count::Count;
use ecn_validation::info::Info;
use ecn_validation::packet::Type;
use ecn_validation::sent::{count_marked_ect0, Packet};
use ecn_validation::stats::Stats;
use ecn_validation::validation::{
    ValidationError, ValidationOutcome, ValidationState, TEST_COUNT, TEST_COUNT_INITIAL_PHASE,
};

fn testing(probes_sent: usize, initial_probes_acked: usize, initial_probes_lost: usize) -> ValidationState {
    ValidationState::Testing { probes_sent, initial_probes_acked, initial_probes_lost }
}

fn pkt(pn: u64, ect0: bool) -> Packet {
    Packet::new(Type::Short, pn, ect0)
}

fn unknown_at_5() -> Info {
    Info { state: ValidationState::Unknown, largest_acked: 5, baseline: Count::new(0, 0, 0, 0) }
}

fn validation_counts(stats: &Stats) -> [u64; 4] {
    [
        stats.ecn_path_validation.get(ValidationOutcome::Capable),
        stats.ecn_path_validation.get(ValidationOutcome::NotCapable(ValidationError::BlackHole)),
        stats.ecn_path_validation.get(ValidationOutcome::NotCapable(ValidationError::Bleaching)),
        stats.ecn_path_validation.get(ValidationOutcome::NotCapable(ValidationError::ReceivedUnsentECT1)),
    ]
}

#[test]
fn thresholds_are_ten_and_three() {
    assert_eq!(TEST_COUNT, 10);
    assert_eq!(TEST_COUNT_INITIAL_PHASE, 3);
}

#[test]
fn a_new_path_is_under_test_and_marks() {
    let info = Info::default();
    assert_eq!(info.state, testing(0, 0, 0));
    assert_eq!(info.state, ValidationState::default());
    assert_eq!(info.largest_acked, 0);
    assert_eq!(info.baseline(), Count::new(0, 0, 0, 0));
    assert!(info.is_marking());
    assert_eq!(info.ecn_mark(), Ecn::Ect0);
}

#[test]
fn the_test_ends_with_the_tenth_datagram() {
    let mut stats = Stats::default();
    let mut info = Info::default();
    for sent in 1..10 {
        info.on_packet_sent(1, &mut stats);
        assert_eq!(info.state, testing(sent, 0, 0));
    }
    info.on_packet_sent(1, &mut stats);
    assert_eq!(info.state, ValidationState::Unknown);
    info.on_packet_sent(1, &mut stats);
    assert_eq!(info.state, ValidationState::Unknown);
    assert_eq!(stats, Stats::default());
}

#[test]
fn the_test_ends_with_the_call_that_crosses_the_threshold() {
    let mut stats = Stats::default();
    let mut info = Info::default();
    info.on_packet_sent(3, &mut stats);
    assert_eq!(info.state, testing(3, 0, 0));
    info.on_packet_sent(0, &mut stats);
    assert_eq!(info.state, testing(3, 0, 0));
    info.on_packet_sent(6, &mut stats);
    assert_eq!(info.state, testing(9, 0, 0));
    info.on_packet_sent(4, &mut stats);
    assert_eq!(info.state, ValidationState::Unknown);
    assert!(!info.is_marking());
    assert_eq!(info.ecn_mark(), Ecn::NotEct);
    assert_eq!(stats, Stats::default());
}

#[test]
fn one_large_sending_ends_the_test() {
    let mut stats = Stats::default();
    let mut info = Info::default();
    info.on_packet_sent(10, &mut stats);
    assert_eq!(info.state, ValidationState::Unknown);

    let mut info = Info::default();
    info.on_packet_sent(usize::MAX, &mut stats);
    assert_eq!(info.state, ValidationState::Unknown);

    let mut info = Info { state: testing(9, 2, 1), largest_acked: 0, baseline: Count::default() };
    info.on_packet_sent(usize::MAX, &mut stats);
    assert_eq!(info.state, ValidationState::Unknown);
    assert_eq!(stats, Stats::default());
}

#[test]
fn sending_keeps_the_counts_of_initial_probes() {
    let mut stats = Stats::default();
    let mut info = Info { state: testing(2, 1, 2), largest_acked: 0, baseline: Count::default() };
    info.on_packet_sent(5, &mut stats);
    assert_eq!(info.state, testing(7, 1, 2));
}

#[test]
fn sending_changes_no_other_state() {
    let mut stats = Stats::default();
    for state in [
        ValidationState::Unknown,
        ValidationState::Capable,
        ValidationState::Failed(ValidationError::Bleaching),
    ] {
        let mut info = Info { state: state, largest_acked: 4, baseline: Count::new(0, 3, 0, 1) };
        info.on_packet_sent(25, &mut stats);
        assert_eq!(info.state, state);
        assert_eq!(info.largest_acked, 4);
        assert_eq!(info.baseline(), Count::new(0, 3, 0, 1));
    }
    assert_eq!(stats, Stats::default());
}

#[test]
fn three_lost_initial_probes_are_a_black_hole() {
    let mut stats = Stats::default();
    let mut info = Info::default();
    info.on_packet_sent(3, &mut stats);
    info.lost_ecn(Type::Initial, &mut stats);
    assert_eq!(info.state, testing(3, 0, 1));
    info.lost_ecn(Type::Initial, &mut stats);
    assert_eq!(info.state, testing(3, 0, 2));
    assert_eq!(validation_counts(&stats), [0, 0, 0, 0]);
    info.lost_ecn(Type::Initial, &mut stats);
    assert_eq!(info.state, ValidationState::Failed(ValidationError::BlackHole));
    assert_eq!(validation_counts(&stats), [0, 1, 0, 0]);
    assert!(!info.is_marking());
    assert_eq!(info.ecn_mark(), Ecn::NotEct);
}

#[test]
fn an_acknowledged_probe_rules_out_the_black_hole() {
    let mut stats = Stats::default();
    let mut info = Info::default();
    info.on_packet_sent(4, &mut stats);
    info.lost_ecn(Type::Initial, &mut stats);
    info.acked_ecn();
    assert_eq!(info.state, testing(4, 1, 1));
    info.lost_ecn(Type::Initial, &mut stats);
    info.lost_ecn(Type::Initial, &mut stats);
    assert_eq!(info.state, testing(4, 1, 3));
    info.lost_ecn(Type::Initial, &mut stats);
    assert_eq!(info.state, testing(4, 1, 4));
    assert_eq!(stats, Stats::default());
}

#[test]
fn only_the_third_loss_fails_the_path() {
    let mut stats = Stats::default();
    let mut info = Info { state: testing(5, 0, 3), largest_acked: 0, baseline: Count::default() };
    info.lost_ecn(Type::Initial, &mut stats);
    assert_eq!(info.state, testing(5, 0, 4));
    assert_eq!(stats, Stats::default());
}

#[test]
fn losses_of_other_packets_do_not_count() {
    let mut stats = Stats::default();
    let mut info = Info::default();
    for pt in [
        Type::VersionNegotiation,
        Type::Handshake,
        Type::ZeroRtt,
        Type::Retry,
        Type::Short,
        Type::OtherVersion,
    ] {
        for _ in 0..4 {
            info.lost_ecn(pt, &mut stats);
        }
    }
    assert_eq!(info.state, testing(0, 0, 0));
    assert_eq!(stats, Stats::default());
}

#[test]
fn probes_are_counted_under_test_only() {
    let mut stats = Stats::default();
    for state in [
        ValidationState::Unknown,
        ValidationState::Capable,
        ValidationState::Failed(ValidationError::ReceivedUnsentECT1),
    ] {
        let mut info = Info { state: state, largest_acked: 0, baseline: Count::default() };
        info.acked_ecn();
        info.lost_ecn(Type::Initial, &mut stats);
        info.lost_ecn(Type::Initial, &mut stats);
        info.lost_ecn(Type::Initial, &mut stats);
        assert_eq!(info.state, state);
    }
    assert_eq!(stats, Stats::default());
}

#[test]
fn a_valid_ack_makes_the_path_capable() {
    let mut stats = Stats::default();
    let mut info = unknown_at_5();
    let new_ce = info.on_packets_acked(&[pkt(6, true)], Some(&Count::new(0, 1, 0, 0)), &mut stats);
    assert!(!new_ce);
    assert_eq!(info.state, ValidationState::Capable);
    assert_eq!(info.baseline(), Count::new(0, 1, 0, 0));
    assert_eq!(info.largest_acked, 6);
    assert_eq!(validation_counts(&stats), [1, 0, 0, 0]);
    assert!(info.is_marking());
    assert_eq!(info.ecn_mark(), Ecn::Ect0);
}

#[test]
fn an_ack_without_counts_is_bleaching() {
    let mut stats = Stats::default();
    let mut info = unknown_at_5();
    let new_ce = info.on_packets_acked(&[pkt(6, true)], None, &mut stats);
    assert!(!new_ce);
    assert_eq!(info.state, ValidationState::Failed(ValidationError::Bleaching));
    assert_eq!(info.baseline(), Count::new(0, 0, 0, 0));
    assert_eq!(info.largest_acked, 5);
    assert_eq!(validation_counts(&stats), [0, 0, 1, 0]);
    assert_eq!(stats.ecn_tx_acked, Stats::default().ecn_tx_acked);
}

#[test]
fn new_ce_marks_on_a_capable_path_are_reported() {
    let mut stats = Stats::default();
    let mut info = unknown_at_5();
    info.on_packets_acked(&[pkt(6, true)], Some(&Count::new(0, 1, 0, 0)), &mut stats);
    let new_ce = info.on_packets_acked(&[pkt(7, true)], Some(&Count::new(0, 1, 0, 1)), &mut stats);
    assert!(new_ce);
    assert_eq!(info.state, ValidationState::Capable);
    assert_eq!(info.baseline(), Count::new(0, 1, 0, 1));
    assert_eq!(info.largest_acked, 7);
    assert_eq!(validation_counts(&stats), [1, 0, 0, 0]);
}

#[test]
fn ce_marks_that_make_the_path_capable_are_reported() {
    let mut stats = Stats::default();
    let mut info = unknown_at_5();
    let new_ce = info.on_packets_acked(&[pkt(6, true)], Some(&Count::new(0, 0, 0, 1)), &mut stats);
    assert!(new_ce);
    assert_eq!(info.state, ValidationState::Capable);
}

#[test]
fn an_ack_that_does_not_advance_changes_nothing() {
    let mut stats = Stats::default();
    let mut info = unknown_at_5();
    let before = stats;
    for pn in [5, 4, 0] {
        for ack_ecn in [None, Some(Count::new(0, 0, 3, 0)), Some(Count::new(0, 2, 0, 2))] {
            for _ in 0..2 {
                let new_ce = info.on_packets_acked(&[pkt(pn, true)], ack_ecn.as_ref(), &mut stats);
                assert!(!new_ce);
                assert_eq!(info.state, ValidationState::Unknown);
                assert_eq!(info.baseline(), Count::new(0, 0, 0, 0));
                assert_eq!(info.largest_acked, 5);
                assert_eq!(stats, before);
            }
        }
    }
}

#[test]
fn a_stale_ack_leaves_a_capable_path_capable() {
    let mut stats = Stats::default();
    let mut info = unknown_at_5();
    info.on_packets_acked(&[pkt(6, true)], Some(&Count::new(0, 1, 0, 0)), &mut stats);
    let before = stats;
    let new_ce = info.on_packets_acked(&[pkt(6, true)], None, &mut stats);
    assert!(!new_ce);
    let new_ce = info.on_packets_acked(&[pkt(3, true)], Some(&Count::new(0, 0, 9, 9)), &mut stats);
    assert!(!new_ce);
    assert_eq!(info.state, ValidationState::Capable);
    assert_eq!(info.baseline(), Count::new(0, 1, 0, 0));
    assert_eq!(info.largest_acked, 6);
    assert_eq!(stats, before);
}

#[test]
fn acks_are_not_validated_under_test() {
    let mut stats = Stats::default();
    let mut info = Info::default();
    info.on_packet_sent(2, &mut stats);
    let new_ce = info.on_packets_acked(&[pkt(1, true)], None, &mut stats);
    assert!(!new_ce);
    let new_ce = info.on_packets_acked(&[pkt(2, true)], Some(&Count::new(0, 2, 0, 5)), &mut stats);
    assert!(!new_ce);
    assert_eq!(info.state, testing(2, 0, 0));
    assert_eq!(info.baseline(), Count::new(0, 0, 0, 0));
    assert_eq!(info.largest_acked, 0);
    assert_eq!(stats, Stats::default());
}

#[test]
fn an_ack_of_unmarked_packets_only_is_bleaching() {
    let mut stats = Stats::default();
    let mut info = unknown_at_5();
    let new_ce = info.on_packets_acked(
        &[Packet::new(Type::Handshake, 8, false), pkt(7, false)],
        Some(&Count::new(0, 4, 0, 0)),
        &mut stats,
    );
    assert!(!new_ce);
    assert_eq!(info.state, ValidationState::Failed(ValidationError::Bleaching));
    assert_eq!(info.baseline(), Count::new(0, 0, 0, 0));
    assert_eq!(info.largest_acked, 5);
    assert_eq!(validation_counts(&stats), [0, 0, 1, 0]);
    assert_eq!(stats.ecn_tx_acked.get(Type::Handshake), Count::new(0, 4, 0, 0));
    assert_eq!(stats.ecn_tx_acked.get(Type::Short), Count::new(0, 0, 0, 0));
}

#[test]
fn too_small_a_rise_is_bleaching() {
    let mut stats = Stats::default();
    let mut info = Info { state: ValidationState::Unknown, largest_acked: 5, baseline: Count::new(0, 3, 0, 1) };
    let new_ce = info.on_packets_acked(
        &[pkt(9, true), pkt(8, true), pkt(7, false), pkt(6, true)],
        Some(&Count::new(0, 4, 0, 2)),
        &mut stats,
    );
    assert!(!new_ce);
    assert_eq!(info.state, ValidationState::Failed(ValidationError::Bleaching));
    assert_eq!(info.baseline(), Count::new(0, 4, 0, 2));
    assert_eq!(info.largest_acked, 9);
    assert_eq!(validation_counts(&stats), [0, 0, 1, 0]);
}

#[test]
fn a_rise_by_the_number_of_marked_packets_is_enough() {
    let mut stats = Stats::default();
    let mut info = Info { state: ValidationState::Unknown, largest_acked: 5, baseline: Count::new(0, 3, 0, 1) };
    let new_ce = info.on_packets_acked(
        &[pkt(9, true), pkt(8, true), pkt(7, false), pkt(6, true)],
        Some(&Count::new(0, 5, 0, 2)),
        &mut stats,
    );
    assert!(new_ce);
    assert_eq!(info.state, ValidationState::Capable);
    assert_eq!(info.baseline(), Count::new(0, 5, 0, 2));
    assert_eq!(info.largest_acked, 9);
}

#[test]
fn counts_below_the_baseline_count_as_no_rise() {
    let mut stats = Stats::default();
    let mut info = Info { state: ValidationState::Capable, largest_acked: 5, baseline: Count::new(0, 10, 0, 10) };
    stats.ecn_path_validation.capable = 1;
    let new_ce = info.on_packets_acked(&[pkt(6, true)], Some(&Count::new(0, 2, 0, 2)), &mut stats);
    assert!(!new_ce);
    assert_eq!(info.state, ValidationState::Failed(ValidationError::Bleaching));
    assert_eq!(info.baseline(), Count::new(0, 2, 0, 2));
}

#[test]
fn a_rise_of_ect1_was_never_sent() {
    let mut stats = Stats::default();
    let mut info = unknown_at_5();
    let new_ce = info.on_packets_acked(&[pkt(6, true)], Some(&Count::new(0, 1, 1, 1)), &mut stats);
    assert!(!new_ce);
    assert_eq!(info.state, ValidationState::Failed(ValidationError::ReceivedUnsentECT1));
    assert_eq!(info.baseline(), Count::new(0, 1, 1, 1));
    assert_eq!(info.largest_acked, 6);
    assert_eq!(validation_counts(&stats), [0, 0, 0, 1]);
}

#[test]
fn bleaching_is_found_before_unsent_ect1() {
    let mut stats = Stats::default();
    let mut info = unknown_at_5();
    info.on_packets_acked(&[pkt(7, true), pkt(6, true)], Some(&Count::new(0, 1, 5, 0)), &mut stats);
    assert_eq!(info.state, ValidationState::Failed(ValidationError::Bleaching));
}

#[test]
fn a_capable_path_can_fail_later() {
    let mut stats = Stats::default();
    let mut info = unknown_at_5();
    info.on_packets_acked(&[pkt(6, true)], Some(&Count::new(0, 1, 0, 0)), &mut stats);
    assert_eq!(validation_counts(&stats), [1, 0, 0, 0]);
    let new_ce = info.on_packets_acked(&[pkt(7, true)], Some(&Count::new(0, 1, 0, 0)), &mut stats);
    assert!(!new_ce);
    assert_eq!(info.state, ValidationState::Failed(ValidationError::Bleaching));
    assert_eq!(validation_counts(&stats), [0, 0, 1, 0]);
    assert_eq!(info.largest_acked, 7);
}

#[test]
fn a_sum_beyond_64_bits_is_no_shortfall() {
    let mut stats = Stats::default();
    let mut info = unknown_at_5();
    let new_ce = info.on_packets_acked(
        &[pkt(6, true)],
        Some(&Count::new(0, u64::MAX, 0, u64::MAX)),
        &mut stats,
    );
    assert!(new_ce);
    assert_eq!(info.state, ValidationState::Capable);
    assert_eq!(info.baseline(), Count::new(0, u64::MAX, 0, u64::MAX));
}

#[test]
fn the_reported_counts_are_kept_by_packet_type() {
    let mut stats = Stats::default();
    let mut info = unknown_at_5();
    info.on_packets_acked(
        &[Packet::new(Type::Initial, 6, true), Packet::new(Type::Handshake, 2, true)],
        Some(&Count::new(0, 2, 0, 0)),
        &mut stats,
    );
    assert_eq!(stats.ecn_tx_acked.get(Type::Initial), Count::new(0, 2, 0, 0));
    assert_eq!(stats.ecn_tx_acked.get(Type::Handshake), Count::new(0, 0, 0, 0));
    info.on_packets_acked(&[pkt(9, true)], Some(&Count::new(0, 3, 0, 0)), &mut stats);
    assert_eq!(stats.ecn_tx_acked.get(Type::Short), Count::new(0, 3, 0, 0));
    assert_eq!(stats.ecn_tx_acked.get(Type::Initial), Count::new(0, 2, 0, 0));
}

#[test]
fn disabling_fails_the_path_for_the_given_reason() {
    for (from, capable_before) in [
        (testing(4, 1, 0), 0),
        (ValidationState::Unknown, 0),
        (ValidationState::Capable, 1),
    ] {
        let mut stats = Stats::default();
        stats.ecn_path_validation.capable = capable_before;
        let mut info = Info { state: from, largest_acked: 3, baseline: Count::new(0, 2, 0, 0) };
        info.disable_ecn(&mut stats, ValidationError::ReceivedUnsentECT1);
        assert_eq!(info.state, ValidationState::Failed(ValidationError::ReceivedUnsentECT1));
        assert_eq!(info.largest_acked, 3);
        assert_eq!(info.baseline(), Count::new(0, 2, 0, 0));
        assert_eq!(validation_counts(&stats), [0, 0, 0, 1]);
        assert!(!info.is_marking());
    }
}

#[test]
fn a_failed_path_stays_failed() {
    let mut stats = Stats::default();
    let mut info = unknown_at_5();
    info.on_packets_acked(&[pkt(6, true)], None, &mut stats);
    let failed = ValidationState::Failed(ValidationError::Bleaching);
    assert_eq!(info.state, failed);
    let before = stats;

    info.on_packet_sent(20, &mut stats);
    assert_eq!(info.state, failed);
    info.acked_ecn();
    assert_eq!(info.state, failed);
    for _ in 0..3 {
        info.lost_ecn(Type::Initial, &mut stats);
    }
    assert_eq!(info.state, failed);
    let new_ce = info.on_packets_acked(&[pkt(7, true)], Some(&Count::new(0, 1, 0, 1)), &mut stats);
    assert!(!new_ce);
    assert_eq!(info.state, failed);
    let new_ce = info.on_packets_acked(&[pkt(8, true)], None, &mut stats);
    assert!(!new_ce);
    assert_eq!(info.state, failed);
    info.set_baseline(Count::new(1, 1, 1, 1));
    assert_eq!(info.state, failed);
    assert_eq!(info.ecn_mark(), Ecn::NotEct);
    assert_eq!(info.largest_acked, 5);
    assert_eq!(stats, before);
}

#[test]
fn set_baseline_replaces_the_baseline_only() {
    let mut info = Info { state: ValidationState::Capable, largest_acked: 12, baseline: Count::new(0, 1, 0, 0) };
    info.set_baseline(Count::new(0, 8, 0, 2));
    assert_eq!(info.baseline(), Count::new(0, 8, 0, 2));
    assert_eq!(info.state, ValidationState::Capable);
    assert_eq!(info.largest_acked, 12);
}

#[test]
fn marking_goes_by_the_state() {
    let cases = [
        (testing(0, 0, 0), true),
        (testing(9, 3, 2), true),
        (ValidationState::Unknown, false),
        (ValidationState::Capable, true),
        (ValidationState::Failed(ValidationError::BlackHole), false),
        (ValidationState::Failed(ValidationError::Bleaching), false),
        (ValidationState::Failed(ValidationError::ReceivedUnsentECT1), false),
    ];
    for (state, marking) in cases {
        let info = Info { state: state, largest_acked: 0, baseline: Count::default() };
        assert_eq!(info.is_marking(), marking);
        assert_eq!(info.ecn_mark(), if marking { Ecn::Ect0 } else { Ecn::NotEct });
    }
}

#[test]
fn set_keeps_the_statistics() {
    let mut stats = Stats::default();
    let mut state = ValidationState::default();
    state.set(ValidationState::Unknown, &mut stats);
    assert_eq!(state, ValidationState::Unknown);
    assert_eq!(validation_counts(&stats), [0, 0, 0, 0]);
    state.set(ValidationState::Capable, &mut stats);
    assert_eq!(validation_counts(&stats), [1, 0, 0, 0]);
    let mut other = ValidationState::Unknown;
    other.set(ValidationState::Capable, &mut stats);
    assert_eq!(validation_counts(&stats), [2, 0, 0, 0]);
    state.set(ValidationState::Failed(ValidationError::BlackHole), &mut stats);
    assert_eq!(state, ValidationState::Failed(ValidationError::BlackHole));
    assert_eq!(validation_counts(&stats), [1, 1, 0, 0]);
    other.set(ValidationState::Failed(ValidationError::BlackHole), &mut stats);
    assert_eq!(validation_counts(&stats), [0, 2, 0, 0]);
}

#[test]
fn marked_packets_are_counted() {
    assert_eq!(count_marked_ect0(&[]), 0);
    assert_eq!(count_marked_ect0(&[pkt(1, false)]), 0);
    assert_eq!(count_marked_ect0(&[pkt(4, true), pkt(3, false), pkt(2, true), pkt(1, true)]), 3);
    let packet = Packet::new(Type::Initial, 77, true);
    assert_eq!(packet.pn(), 77);
    assert_eq!(packet.packet_type(), Type::Initial);
    assert!(packet.ecn_marked_ect0());
}

#[test]
fn the_test_ends_exactly_when_ten_were_sent() {
    // Every run of up to four sendings of 0 to 5 datagrams each.
    let mut runs: Vec<Vec<usize>> = vec![vec![]];
    for _ in 0..4 {
        let mut longer = Vec::new();
        for run in &runs {
            for n in 0..=5 {
                let mut next = run.clone();
                next.push(n);
                longer.push(next);
            }
        }
        runs.extend(longer);
    }
    for run in runs {
        let mut stats = Stats::default();
        let mut info = Info::default();
        let mut total = 0;
        let mut ended = false;
        for n in run {
            info.on_packet_sent(n, &mut stats);
            total += n;
            if total >= 10 {
                ended = true;
            }
            if ended {
                assert_eq!(info.state, ValidationState::Unknown);
            } else {
                assert_eq!(info.state, testing(total, 0, 0));
            }
        }
        assert_eq!(stats, Stats::default());
    }
}

#[test]
fn statistics_start_at_zero() {
    let stats = Stats::default();
    assert_eq!(validation_counts(&stats), [0, 0, 0, 0]);
    for pt in [
        Type::VersionNegotiation,
        Type::Initial,
        Type::Handshake,
        Type::ZeroRtt,
        Type::Retry,
        Type::Short,
        Type::OtherVersion,
    ] {
        assert!(stats.ecn_tx_acked.get(pt).is_empty());
    }
}

#[test]
fn counts_are_kept_for_each_packet_type_apart() {
    let mut stats = Stats::default();
    let types = [
        Type::VersionNegotiation,
        Type::Initial,
        Type::Handshake,
        Type::ZeroRtt,
        Type::Retry,
        Type::Short,
        Type::OtherVersion,
    ];
    for (i, pt) in types.iter().enumerate() {
        stats.ecn_tx_acked.set(*pt, Count::new(0, i as u64 + 1, 0, 0));
    }
    for (i, pt) in types.iter().enumerate() {
        assert_eq!(stats.ecn_tx_acked.get(*pt), Count::new(0, i as u64 + 1, 0, 0));
    }
}

#[test]
fn two_paths_share_the_statistics() {
    let mut stats = Stats::default();
    let mut first = unknown_at_5();
    let mut second = unknown_at_5();
    first.on_packets_acked(&[pkt(6, true)], Some(&Count::new(0, 1, 0, 0)), &mut stats);
    second.on_packets_acked(&[pkt(6, true)], Some(&Count::new(0, 1, 0, 0)), &mut stats);
    assert_eq!(validation_counts(&stats), [2, 0, 0, 0]);
    first.on_packets_acked(&[pkt(7, true)], None, &mut stats);
    assert_eq!(validation_counts(&stats), [1, 0, 1, 0]);
    second.on_packets_acked(&[pkt(7, true)], Some(&Count::new(0, 2, 1, 0)), &mut stats);
    assert_eq!(validation_counts(&stats), [0, 0, 1, 1]);
}
