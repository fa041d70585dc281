//! What holds of an aggregation at all times.
use vstd::prelude::*;
use crate::aggregator;
use crate::aggregator::{AggState, AggregatorView, MAX_QUERY_ERROR_RECORDS};
use crate::bucket;
use crate::bucket::BucketView;
use crate::metrics::PointView;
use crate::results;
use crate::snapshot::SnapshotView;

verus! {

/// No two points of a timeline belong to the same second.
pub open spec fn one_point_per_second(timeline: Seq<PointView>) -> bool {
    forall|i: int, j: int|
        0 <= i < j < timeline.len() ==> (#[trigger] timeline[i]).timestamp_s != (
        #[trigger] timeline[j]).timestamp_s
}

/// What holds of an aggregation: there is one point for a second, and no more records of
/// failed queries are kept than there is room for.
pub open spec fn orderly(a: AggregatorView) -> bool {
    &&& one_point_per_second(a.timeline)
    &&& a.errors.len() <= MAX_QUERY_ERROR_RECORDS
}

/// An aggregation is orderly at the start.
pub proof fn orderly_at_the_start(results_path: Seq<char>)
    ensures
        orderly(aggregator::started(results_path)),
{
}

/// Every snapshot, and every worker that comes or goes, keeps an aggregation orderly.
pub proof fn orderly_ever_after(a: AggregatorView, s: SnapshotView, stream: Seq<char>, lag: u64)
    requires
        orderly(a),
    ensures
        orderly(aggregator::reported(a, s)),
        orderly(aggregator::joined(a)),
        orderly(aggregator::left(a)),
        orderly(aggregator::lagging(a, stream, lag)),
{
    let b = aggregator::with_snapshot(
        aggregator::bucket_at(a.buckets, aggregator::second_of(s), 0),
        s,
    );
    replacing_keeps_seconds_apart(a.timeline, bucket::aggregate(b, a.kafka_consumer_lag), 0);
}

proof fn replacing_keeps_seconds_apart(timeline: Seq<PointView>, p: PointView, i: int)
    requires
        one_point_per_second(timeline),
        0 <= i <= timeline.len(),
        forall|k: int| 0 <= k < i ==> (#[trigger] timeline[k]).timestamp_s != p.timestamp_s,
    ensures
        one_point_per_second(aggregator::replace_point(timeline, p, i)),
    decreases timeline.len() - i,
{
    let r = aggregator::replace_point(timeline, p, i);
    if i >= timeline.len() {
        assert forall|a: int, b: int| 0 <= a < b < r.len() implies (#[trigger] r[a]).timestamp_s
            != (#[trigger] r[b]).timestamp_s by {
            assert(r[a] == timeline[a]);
            if b < timeline.len() {
                assert(r[b] == timeline[b]);
            }
        }
    } else if timeline[i].timestamp_s == p.timestamp_s {
        assert forall|a: int, b: int| 0 <= a < b < r.len() implies (#[trigger] r[a]).timestamp_s
            != (#[trigger] r[b]).timestamp_s by {
            assert(timeline[a].timestamp_s != timeline[b].timestamp_s);
        }
    } else {
        replacing_keeps_seconds_apart(timeline, p, i + 1);
    }
}

/// A complete aggregation stays complete.
pub proof fn complete_for_good(a: AggregatorView, s: SnapshotView, stream: Seq<char>, lag: u64)
    requires
        a.state == AggState::Complete,
    ensures
        aggregator::reported(a, s).state == AggState::Complete,
        aggregator::joined(a).state == AggState::Complete,
        aggregator::left(a).state == AggState::Complete,
        aggregator::lagging(a, stream, lag).state == AggState::Complete,
{
}

/// An aggregation completes by itself when, and only when, the last worker leaves.
pub proof fn complete_when_the_last_leaves(a: AggregatorView)
    requires
        a.state == AggState::Collecting,
        a.had_workers,
    ensures
        aggregator::left(a).state == AggState::Complete <==> a.connected_workers <= 1,
{
}

/// As soon as one snapshot came from a worker, results can be given.
pub proof fn one_snapshot_is_enough(a: AggregatorView, s: SnapshotView)
    requires
        a.had_workers,
    ensures
        results::can_answer(aggregator::reported(a, s)),
{
}

/// A snapshot that comes in time is counted in the point of its second, whatever else came
/// before.
pub proof fn a_snapshot_counts_in_its_second(a: AggregatorView, s: SnapshotView)
    requires
        !aggregator::late(a.buckets, aggregator::second_of(s)),
    ensures
        aggregator::reported(a, s).timeline.contains(
            bucket::aggregate(
                aggregator::with_snapshot(
                    aggregator::bucket_at(a.buckets, aggregator::second_of(s), 0),
                    s,
                ),
                a.kafka_consumer_lag,
            ),
        ),
{
    let b = aggregator::with_snapshot(
        aggregator::bucket_at(a.buckets, aggregator::second_of(s), 0),
        s,
    );
    replaced_point_is_there(a.timeline, bucket::aggregate(b, a.kafka_consumer_lag), 0);
}

/// A point that lies further back than the grace period is final: no snapshot changes it or
/// its place, and it stays as far back.
pub proof fn old_points_are_final(a: AggregatorView, s: SnapshotView, i: int)
    requires
        0 <= i < a.timeline.len(),
        aggregator::late(a.buckets, a.timeline[i].timestamp_s),
    ensures
        i < aggregator::reported(a, s).timeline.len(),
        aggregator::reported(a, s).timeline[i] == a.timeline[i],
        aggregator::late(aggregator::reported(a, s).buckets, a.timeline[i].timestamp_s),
{
    let second = aggregator::second_of(s);
    if !aggregator::late(a.buckets, second) {
        let b = aggregator::with_snapshot(aggregator::bucket_at(a.buckets, second, 0), s);
        aggregator::bucket_at_time(a.buckets, second, 0);
        other_points_stay(a.timeline, bucket::aggregate(b, a.kafka_consumer_lag), 0, i);
        let k = choose|k: int|
            0 <= k < a.buckets.len() && (#[trigger] a.buckets[k]).timestamp_s
                > a.timeline[i].timestamp_s + aggregator::GRACE_SECONDS;
        seconds_stay(a.buckets, b, 0, k);
        assert(aggregator::reported(a, s).buckets[k].timestamp_s == a.buckets[k].timestamp_s);
    }
}

proof fn other_points_stay(timeline: Seq<PointView>, p: PointView, i: int, k: int)
    requires
        0 <= i,
        0 <= k < timeline.len(),
        timeline[k].timestamp_s != p.timestamp_s,
    ensures
        k < aggregator::replace_point(timeline, p, i).len(),
        aggregator::replace_point(timeline, p, i)[k] == timeline[k],
    decreases timeline.len() - i,
{
    if i < timeline.len() && timeline[i].timestamp_s != p.timestamp_s {
        other_points_stay(timeline, p, i + 1, k);
    }
}

proof fn seconds_stay(buckets: Seq<BucketView>, b: BucketView, i: int, k: int)
    requires
        0 <= i,
        0 <= k < buckets.len(),
    ensures
        k < aggregator::replace_bucket(buckets, b, i).len(),
        aggregator::replace_bucket(buckets, b, i)[k].timestamp_s == buckets[k].timestamp_s,
    decreases buckets.len() - i,
{
    if i < buckets.len() && buckets[i].timestamp_s != b.timestamp_s {
        seconds_stay(buckets, b, i + 1, k);
    }
}

proof fn replaced_point_is_there(timeline: Seq<PointView>, p: PointView, i: int)
    requires
        0 <= i <= timeline.len(),
    ensures
        aggregator::replace_point(timeline, p, i).contains(p),
    decreases timeline.len() - i,
{
    let r = aggregator::replace_point(timeline, p, i);
    if i >= timeline.len() {
        assert(r[timeline.len() as int] == p);
    } else if timeline[i].timestamp_s == p.timestamp_s {
        assert(r[i] == p);
    } else {
        replaced_point_is_there(timeline, p, i + 1);
    }
}

} // verus!
