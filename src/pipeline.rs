//! What the drain observes of the two producers' records once the channel
//! has merged them.
use vstd::prelude::*;

use crate::poller::{SensorReadout, cycle_records, poller_records};
use crate::telemetry::{SinkEntryModel, SinkTag, TelemetryRecord, TouchPoint, entry_of};

verus! {

/// `rx` is a merge of `a` and `b` that keeps the order within each: what a
/// channel with per-sender FIFO order delivers from two senders.
pub open spec fn is_interleaving(
    rx: Seq<TelemetryRecord>,
    a: Seq<TelemetryRecord>,
    b: Seq<TelemetryRecord>,
) -> bool
    decreases rx.len(),
{
    if rx.len() == 0 {
        a.len() == 0 && b.len() == 0
    } else {
        ||| (a.len() > 0 && rx.last() == a.last() && is_interleaving(rx.drop_last(), a.drop_last(), b))
        ||| (b.len() > 0 && rx.last() == b.last() && is_interleaving(rx.drop_last(), a, b.drop_last()))
    }
}

/// The touch producer's records for a run of recorded coordinates.
pub open spec fn touch_records(points: Seq<TouchPoint>) -> Seq<TelemetryRecord> {
    points.map_values(|p: TouchPoint| TelemetryRecord::Touch(p))
}

/// What the drain writes for a run of received records, in order.
pub open spec fn drained(rx: Seq<TelemetryRecord>) -> Seq<SinkEntryModel> {
    rx.map_values(|r: TelemetryRecord| entry_of(r))
}

/// The entries under the touch tag (`touch == true`) or under the two
/// sensor tags (`touch == false`), in order.
pub open spec fn entries_in(out: Seq<SinkEntryModel>, touch: bool) -> Seq<SinkEntryModel>
    decreases out.len(),
{
    if out.len() == 0 {
        seq![]
    } else {
        let rest = entries_in(out.drop_last(), touch);
        if (out.last().tag == SinkTag::Touch) == touch {
            rest.push(out.last())
        } else {
            rest
        }
    }
}

proof fn lemma_poller_records_shape(readouts: Seq<SensorReadout>)
    ensures
        poller_records(readouts).len() == 2 * readouts.len(),
        forall|i: int|
            0 <= i < poller_records(readouts).len() ==> !(#[trigger] poller_records(
                readouts,
            )[i] is Touch),
    decreases readouts.len(),
{
    if readouts.len() > 0 {
        lemma_poller_records_shape(readouts.drop_last());
        let prev = poller_records(readouts.drop_last());
        let cyc = cycle_records(readouts.last());
        assert forall|i: int| 0 <= i < poller_records(readouts).len() implies !(
        #[trigger] poller_records(readouts)[i] is Touch) by {
            if i < prev.len() {
                assert(poller_records(readouts)[i] == prev[i]);
            } else {
                assert(poller_records(readouts)[i] == cyc[i - prev.len()]);
            }
        }
    }
}

proof fn lemma_split_by_tag(rx: Seq<TelemetryRecord>, a: Seq<TelemetryRecord>, b: Seq<TelemetryRecord>)
    requires
        is_interleaving(rx, a, b),
        forall|i: int| 0 <= i < a.len() ==> #[trigger] a[i] is Touch,
        forall|i: int| 0 <= i < b.len() ==> !(#[trigger] b[i] is Touch),
    ensures
        entries_in(drained(rx), true) == drained(a),
        entries_in(drained(rx), false) == drained(b),
    decreases rx.len(),
{
    if rx.len() == 0 {
        assert(drained(a) =~= seq![]);
        assert(drained(b) =~= seq![]);
    } else {
        let rest = rx.drop_last();
        assert(drained(rx).drop_last() =~= drained(rest));
        if a.len() > 0 && rx.last() == a.last() && is_interleaving(rest, a.drop_last(), b) {
            assert(forall|i: int|
                0 <= i < a.drop_last().len() ==> a.drop_last()[i] == a[i]);
            lemma_split_by_tag(rest, a.drop_last(), b);
            assert(a[a.len() - 1] is Touch);
            assert(drained(a) =~= drained(a.drop_last()).push(entry_of(a.last())));
        } else {
            assert(forall|i: int|
                0 <= i < b.drop_last().len() ==> b.drop_last()[i] == b[i]);
            lemma_split_by_tag(rest, a, b.drop_last());
            assert(!(b[b.len() - 1] is Touch));
            assert(drained(b) =~= drained(b.drop_last()).push(entry_of(b.last())));
        }
    }
}

/// No record is lost, duplicated or reordered within its producer: when
/// the channel merges the touch records of `points` with the records of the
/// poller's `readouts`, the drain writes exactly one touch entry per point
/// and two sensor entries per readout, each producer's in its own order.
pub proof fn lemma_drain_keeps_every_record(
    points: Seq<TouchPoint>,
    readouts: Seq<SensorReadout>,
    rx: Seq<TelemetryRecord>,
)
    requires
        is_interleaving(rx, touch_records(points), poller_records(readouts)),
    ensures
        entries_in(drained(rx), true) == drained(touch_records(points)),
        entries_in(drained(rx), false) == drained(poller_records(readouts)),
        entries_in(drained(rx), true).len() == points.len(),
        entries_in(drained(rx), false).len() == 2 * readouts.len(),
{
    lemma_poller_records_shape(readouts);
    lemma_split_by_tag(rx, touch_records(points), poller_records(readouts));
}

} // verus!
