//! How far the target platform is behind: the messages of a topic that it has not
//! consumed yet.
use vstd::prelude::*;
use crate::model;
use crate::rates;

verus! {

/// The end of a partition, and how far it was consumed, where that is known.
#[derive(Clone, Copy, PartialEq, Eq, Structural, Debug)]
pub struct PartitionOffsets {
    pub high: i64,
    pub committed: Option<i64>,
}

/// The messages of a partition that were not consumed. Where nothing is known of it, none
/// were consumed.
pub open spec fn partition_lag(p: PartitionOffsets) -> int {
    let committed = match p.committed {
        Some(c) => c as int,
        None => 0,
    };
    if p.high > committed {
        p.high - committed
    } else {
        0
    }
}

/// The lags of the partitions.
pub open spec fn partition_lags(p: Seq<PartitionOffsets>) -> Seq<int> {
    p.map_values(|x: PartitionOffsets| partition_lag(x))
}

/// The messages of a topic that were not consumed.
pub open spec fn topic_lag(p: Seq<PartitionOffsets>) -> int {
    rates::at_most_u64(model::sum(partition_lags(p)))
}

/// The messages of a topic that were not consumed.
pub fn compute_consumer_lag(partitions: &Vec<PartitionOffsets>) -> (r: u64)
    ensures
        r == topic_lag(partitions@),
{
    let ghost all = partition_lags(partitions@);
    let len: usize = partitions.len();
    let mut total: u128 = 0;
    let mut i: usize = 0;
    assert(all.take(0) =~= Seq::<int>::empty());
    while i < len
        invariant
            i <= len == partitions@.len(),
            all == partition_lags(partitions@),
            total == model::sum(all.take(i as int)),
            total <= i * 0xffff_ffff_ffff_ffff,
        decreases len - i,
    {
        proof {
            model::sum_take(all, i as int);
        }
        let p = partitions[i];
        let committed: i128 = match p.committed {
            Some(c) => c as i128,
            None => 0,
        };
        let high: i128 = p.high as i128;
        if high > committed {
            total = total + (high - committed) as u128;
        }
        i += 1;
    }
    assert(all.take(i as int) =~= all);
    if total > u64::MAX as u128 {
        u64::MAX
    } else {
        total as u64
    }
}

/// A topic that was consumed to the end has no lag.
pub proof fn consumed_topic_has_no_lag(p: Seq<PartitionOffsets>)
    requires
        forall|i: int|
            0 <= i < p.len() ==> (#[trigger] p[i]).committed is Some && p[i].committed->0
                >= p[i].high,
    ensures
        topic_lag(p) == 0,
{
    no_lag_upto(p, p.len() as int);
    assert(partition_lags(p).take(p.len() as int) =~= partition_lags(p));
}

proof fn no_lag_upto(p: Seq<PartitionOffsets>, n: int)
    requires
        0 <= n <= p.len(),
        forall|i: int|
            0 <= i < p.len() ==> (#[trigger] p[i]).committed is Some && p[i].committed->0
                >= p[i].high,
    ensures
        model::sum(partition_lags(p).take(n)) == 0,
    decreases n,
{
    let all = partition_lags(p);
    if n > 0 {
        no_lag_upto(p, n - 1);
        model::sum_take(all, n - 1);
        assert(all[n - 1] == partition_lag(p[n - 1]));
    } else {
        assert(all.take(0) =~= Seq::<int>::empty());
    }
}

} // verus!
