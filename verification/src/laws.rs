//! What holds of ECN validation whatever happens to a path.

use vstd::prelude::*;
use vstd::std_specs::ops::SubSpec;
use crate::codepoint::Ecn;
use crate::count::{floor_sub, Count};
use crate::model::{AckView, Event, InfoView, PathView};
use crate::validation::{StateView, ValidationError, ValidationOutcome, TEST_COUNT};

verus! {

/// The sum of `counts`.
pub open spec fn total(counts: Seq<nat>) -> nat
    decreases counts.len(),
{
    if counts.len() == 0 {
        0
    } else {
        total(counts.drop_last()) + counts.last()
    }
}

/// The events in which datagrams are sent `counts.len()` times, `counts[i]`
/// of them the `i`th time.
pub open spec fn sendings(counts: Seq<nat>) -> Seq<Event> {
    Seq::new(counts.len(), |i: int| Event::Sent { num_datagrams: counts[i] })
}

/// The difference of two banks of counters holds, for each codepoint, the
/// count of the first less that of the second, or zero where the second is
/// the greater. No count of it falls below zero.
pub proof fn law_difference_is_floored(a: Count, b: Count, codepoint: Ecn)
    ensures
        a.sub_spec(b)@[codepoint] == floor_sub(a@[codepoint], b@[codepoint]),
        a@[codepoint] >= b@[codepoint] ==> a.sub_spec(b)@[codepoint] == a@[codepoint]
            - b@[codepoint],
        a@[codepoint] < b@[codepoint] ==> a.sub_spec(b)@[codepoint] == 0,
        a.sub_spec(b)@[codepoint] >= 0,
{
}

/// A series of sendings only adds to a total: what was sent after the first
/// `j` sendings is no more than what was sent after the first `k`, for
/// `j <= k`.
pub proof fn lemma_total_grows(counts: Seq<nat>, j: int, k: int)
    requires
        0 <= j <= k <= counts.len(),
    ensures
        total(counts.take(j)) <= total(counts.take(k)),
    decreases k - j,
{
    if j < k {
        lemma_total_grows(counts, j, k - 1);
        assert(counts.take(k).drop_last() =~= counts.take(k - 1));
    }
}

/// A path under test has always sent fewer probes than end the test: a new
/// path has sent none, and whatever happens to a path that has sent fewer
/// leaves it with fewer, or ends its test.
pub proof fn law_test_stays_within_budget(info: InfoView, event: Event)
    requires
        info.testing_within_budget(),
    ensures
        InfoView::initial().testing_within_budget(),
        info.after(event).testing_within_budget(),
{
}

/// While a path is under test, sending datagrams does nothing but count
/// them, and the test ends with the sending that brings the count to
/// [`TEST_COUNT`]: not before it, and not after it. The path is in the state
/// `Unknown` from then on, whatever is sent.
///
/// Stated of a path under test that has sent `probes_sent` probes so far,
/// fewer than [`TEST_COUNT`] as every path under test has, and of what it is
/// after the first `k` sendings of `counts`, for each `k`.
pub proof fn law_test_ends_at_threshold(path: PathView, counts: Seq<nat>, k: int)
    requires
        path.info.state is Testing,
        path.info.testing_within_budget(),
        0 <= k <= counts.len(),
    ensures
        ({
            let sent = path.info.state->probes_sent + total(counts.take(k));
            let then = path.after_all(sendings(counts.take(k)));
            &&& then.stats == path.stats
            &&& then.info.largest_acked == path.info.largest_acked
            &&& then.info.baseline == path.info.baseline
            &&& sent < TEST_COUNT ==> then.info.state == (StateView::Testing {
                probes_sent: sent,
                initial_probes_acked: path.info.state->initial_probes_acked,
                initial_probes_lost: path.info.state->initial_probes_lost,
            })
            &&& sent >= TEST_COUNT ==> then.info.state == StateView::Unknown
        }),
    decreases k,
{
    if k > 0 {
        law_test_ends_at_threshold(path, counts, k - 1);
        assert(counts.take(k).drop_last() =~= counts.take(k - 1));
        assert(sendings(counts.take(k)).drop_last() =~= sendings(counts.take(k - 1)));
        assert(sendings(counts.take(k)).last() == Event::Sent { num_datagrams: counts[k - 1] });
    } else {
        assert(sendings(counts.take(0)).len() == 0);
    }
}

/// The test of a path ends once. Where the path is under test after some
/// of the sendings of `counts`, it was under test after each shorter run of
/// them, and where its test has ended after some of them, it has ended
/// after each longer run.
pub proof fn law_test_ends_once(path: PathView, counts: Seq<nat>, j: int, k: int)
    requires
        path.info.state is Testing,
        path.info.testing_within_budget(),
        0 <= j <= k <= counts.len(),
    ensures
        path.after_all(sendings(counts.take(k))).info.state is Testing ==> path.after_all(
            sendings(counts.take(j)),
        ).info.state is Testing,
        path.after_all(sendings(counts.take(j))).info.state is Unknown ==> path.after_all(
            sendings(counts.take(k)),
        ).info.state is Unknown,
{
    law_test_ends_at_threshold(path, counts, j);
    law_test_ends_at_threshold(path, counts, k);
    lemma_total_grows(counts, j, k);
}

/// An ACK frame that does not raise the number of the newest packet
/// acknowledged changes nothing: not the record of the path, not the
/// statistics, and it shows no congestion. So it changes nothing the second
/// time either.
pub proof fn law_stale_ack_changes_nothing(path: PathView, ack: AckView)
    requires
        ack.largest <= path.info.largest_acked,
    ensures
        path.after(Event::Acked { ack }) == path,
        path.after(Event::Acked { ack }).after(Event::Acked { ack }) == path,
        !path.info.congestion_seen(ack),
{
    let once = path.after(Event::Acked { ack });
    assert(once.stats =~~= path.stats);
    assert(once =~~= path);
}

/// A path that has failed stays as it failed: no event changes its state or
/// the counts of outcomes.
///
/// Stated of every series of events that may happen to the path, which is to
/// say that ECN is not given up again on it.
pub proof fn law_failed_is_final(path: PathView, events: Seq<Event>)
    requires
        path.info.state is Failed,
        path.admits_all(events),
    ensures
        path.after_all(events).info.state == path.info.state,
        path.after_all(events).stats == path.stats,
    decreases events.len(),
{
    if events.len() > 0 {
        let before = events.drop_last();
        assert forall|i: int| 0 <= i < before.len() implies #[trigger] path.after_all(
            before.take(i),
        ).info.admits(before[i]) by {
            assert(before.take(i) =~= events.take(i));
            assert(path.after_all(events.take(i)).info.admits(events[i]));
        }
        law_failed_is_final(path, before);
        let then = path.after_all(before);
        assert(events.take(events.len() - 1) =~= before);
        assert(then.info.admits(events.last()));
        assert(then.after(events.last()).stats =~~= then.stats);
    }
}

/// No event takes anything off the count of the paths that failed for a
/// reason. An event adds one to it where it makes a path fail for that
/// reason, and leaves it as it is where it does not.
pub proof fn law_failures_are_counted(path: PathView, event: Event, reason: ValidationError)
    requires
        path.info.admits(event),
    ensures
        ({
            let then = path.after(event);
            let failure = ValidationOutcome::NotCapable(reason);
            let fails = !(path.info.state is Failed) && then.info.state == StateView::Failed(
                reason,
            );
            then.stats.validation[failure] == path.stats.validation[failure] + if fails {
                1int
            } else {
                0int
            }
        }),
{
}

/// The tally of capable paths follows the paths: an event adds one to it
/// where it makes a path capable, takes one off where it ends the
/// capability of a path, and else leaves it as it is.
pub proof fn law_capable_paths_are_tallied(path: PathView, event: Event)
    requires
        path.info.admits(event),
    ensures
        ({
            let then = path.after(event);
            let was = path.info.state is Capable;
            let now = then.info.state is Capable;
            then.stats.validation[ValidationOutcome::Capable]
                == path.stats.validation[ValidationOutcome::Capable] + if now && !was {
                1int
            } else if was && !now {
                -1int
            } else {
                0int
            }
        }),
{
}

} // verus!
