//! How many activities the node has seen in each state, over the last hour and
//! over all time.

use crate::text::str_eq;
use vstd::prelude::*;

verus! {

/// A moment in time: seconds since the Unix epoch and the nanoseconds past them.
#[derive(Clone, Copy, Debug, PartialEq, Eq, Hash, Structural)]
pub struct Timestamp {
    pub secs: i64,
    pub nanos: u32,
}

/// The count that `buckets` gives for `label`: that of the first bucket under
/// this label, and zero where there is none.
pub open spec fn count_of(buckets: Seq<(Seq<char>, u64)>, label: Seq<char>) -> u64
    decreases buckets.len(),
{
    if buckets.len() == 0 {
        0
    } else if buckets[0].0 == label {
        buckets[0].1
    } else {
        count_of(buckets.drop_first(), label)
    }
}

/// Whether activities in the state `label` are under way: all are, but those
/// that have ended and those that have not begun.
pub open spec fn is_under_way(label: Seq<char>) -> bool {
    label != "Terminated"@ && label != "New"@
}

/// The counts of all buckets whose activities are under way, added up.
pub open spec fn under_way(buckets: Seq<(Seq<char>, u64)>) -> nat
    decreases buckets.len(),
{
    if buckets.len() == 0 {
        0
    } else {
        under_way(buckets.drop_last()) + weight(buckets.last())
    }
}

/// Activity counts by state, and when the node was last active.
#[derive(Debug, PartialEq, Eq)]
pub struct ActivityStatus {
    pub last1h: Vec<(String, u64)>,
    pub total: Vec<(String, u64)>,
    pub last_activity_ts: Option<Timestamp>,
}

impl Default for ActivityStatus {
    fn default() -> (status: ActivityStatus)
        ensures
            status.last1h@.len() == 0,
            status.total@.len() == 0,
            status.last_activity_ts is None,
            status.wf(),
    {
        ActivityStatus { last1h: Vec::new(), total: Vec::new(), last_activity_ts: None }
    }
}

/// The count of the first bucket under `label`, or zero.
fn lookup(buckets: &Vec<(String, u64)>, label: &str) -> (count: u64)
    ensures
        count == count_of(buckets.deep_view(), label@),
{
    let ghost all = buckets.deep_view();
    let mut i: usize = 0;
    assert(all.skip(0) =~= all);
    while i < buckets.len()
        invariant
            all == buckets.deep_view(),
            i <= buckets@.len(),
            count_of(all, label@) == count_of(all.skip(i as int), label@),
        decreases buckets@.len() - i,
    {
        proof {
            let rest = all.skip(i as int);
            assert(rest[0] == all[i as int]);
            assert(rest.drop_first() =~= all.skip(i + 1));
            assert(all[i as int].0 == buckets@[i as int].0@);
            assert(all[i as int].1 == buckets@[i as int].1);
        }
        if str_eq(buckets[i].0.as_str(), label) {
            return buckets[i].1;
        }
        i += 1;
    }
    0
}

/// Whether no label occurs twice among `buckets`.
fn has_distinct_labels(buckets: &Vec<(String, u64)>) -> (distinct: bool)
    ensures
        distinct == distinct_labels(buckets.deep_view()),
{
    let ghost all = buckets.deep_view();
    let mut j: usize = 0;
    while j < buckets.len()
        invariant
            all == buckets.deep_view(),
            j <= buckets@.len(),
            forall|a: int, b: int|
                0 <= a < b < j ==> (#[trigger] all[a]).0 != (#[trigger] all[b]).0,
        decreases buckets@.len() - j,
    {
        let mut i: usize = 0;
        while i < j
            invariant
                all == buckets.deep_view(),
                i <= j < buckets@.len(),
                forall|a: int| 0 <= a < i ==> (#[trigger] all[a]).0 != all[j as int].0,
            decreases j - i,
        {
            assert(all[i as int].0 == buckets@[i as int].0@);
            assert(all[j as int].0 == buckets@[j as int].0@);
            if str_eq(buckets[i].0.as_str(), buckets[j].0.as_str()) {
                assert(all[i as int].0 == all[j as int].0);
                return false;
            }
            i += 1;
        }
        j += 1;
    }
    true
}

impl ActivityStatus {
    /// Both fields are mappings: no label occurs twice in either. The counters
    /// below are then those of the mappings, whatever the order of the buckets.
    pub open spec fn wf(&self) -> bool {
        distinct_labels(self.last1h.deep_view()) && distinct_labels(self.total.deep_view())
    }

    /// The report made of the given buckets, or `None` where a label occurs
    /// twice in either list.
    pub fn new(
        last1h: Vec<(String, u64)>,
        total: Vec<(String, u64)>,
        last_activity_ts: Option<Timestamp>,
    ) -> (status: Option<ActivityStatus>)
        ensures
            match status {
                Some(made) => made.wf() && made == (ActivityStatus {
                    last1h,
                    total,
                    last_activity_ts,
                }),
                None => !(distinct_labels(last1h.deep_view()) && distinct_labels(
                    total.deep_view(),
                )),
            },
    {
        if has_distinct_labels(&last1h) && has_distinct_labels(&total) {
            Some(ActivityStatus { last1h, total, last_activity_ts })
        } else {
            None
        }
    }

    /// Activities that ended within the last hour.
    pub open spec fn processed_in_last_hour(&self) -> u64 {
        count_of(self.last1h.deep_view(), "Terminated"@)
    }

    /// Activities that ended, over all time.
    pub open spec fn processed_in_total(&self) -> u64 {
        count_of(self.total.deep_view(), "Terminated"@)
    }

    pub fn last1h_processed(&self) -> (count: u64)
        ensures
            count == self.processed_in_last_hour(),
    {
        lookup(&self.last1h, "Terminated")
    }

    /// Activities under way within the last hour, or `None` where their number
    /// does not fit in a `u64`.
    pub fn in_progress(&self) -> (count: Option<u64>)
        ensures
            match count {
                Some(n) => n == under_way(self.last1h.deep_view()),
                None => under_way(self.last1h.deep_view()) > u64::MAX,
            },
    {
        let ghost all = self.last1h.deep_view();
        let mut in_progress: u64 = 0;
        let mut i: usize = 0;
        assert(all.take(0) =~= Seq::<(Seq<char>, u64)>::empty());
        while i < self.last1h.len()
            invariant
                all == self.last1h.deep_view(),
                i <= self.last1h@.len(),
                in_progress == under_way(all.take(i as int)),
            decreases self.last1h@.len() - i,
        {
            proof {
                let next = all.take(i + 1);
                assert(next.drop_last() =~= all.take(i as int));
                assert(next.last() == all[i as int]);
                assert(all[i as int].0 == self.last1h@[i as int].0@);
                assert(all[i as int].1 == self.last1h@[i as int].1);
            }
            let label = self.last1h[i].0.as_str();
            if !str_eq(label, "Terminated") && !str_eq(label, "New") {
                match in_progress.checked_add(self.last1h[i].1) {
                    Some(sum) => {
                        in_progress = sum;
                    },
                    None => {
                        proof {
                            lemma_under_way_grows(all, i + 1);
                        }
                        return None;
                    },
                }
            }
            i += 1;
        }
        assert(all.take(i as int) =~= all);
        Some(in_progress)
    }

    pub fn total_processed(&self) -> (count: u64)
        ensures
            count == self.processed_in_total(),
    {
        lookup(&self.total, "Terminated")
    }
}

/// What is read of the totals does not depend on the last hour: two reports
/// with the same totals have processed the same number over all time.
pub proof fn lemma_totals_are_read_apart(one: ActivityStatus, other: ActivityStatus)
    requires
        one.total.deep_view() == other.total.deep_view(),
    ensures
        one.processed_in_total() == other.processed_in_total(),
{
}

/// What one bucket adds to the number under way.
pub open spec fn weight(bucket: (Seq<char>, u64)) -> nat {
    if is_under_way(bucket.0) {
        bucket.1 as nat
    } else {
        0
    }
}

/// No label occurs twice: the buckets stand for a mapping from labels to counts.
pub open spec fn distinct_labels(buckets: Seq<(Seq<char>, u64)>) -> bool {
    forall|i: int, j: int|
        0 <= i < j < buckets.len() ==> (#[trigger] buckets[i]).0 != (#[trigger] buckets[j]).0
}

/// Where no label occurs twice, the count of a bucket's label is that
/// bucket's count, wherever the bucket stands.
pub proof fn lemma_count_of_bucket(buckets: Seq<(Seq<char>, u64)>, i: int)
    requires
        distinct_labels(buckets),
        0 <= i < buckets.len(),
    ensures
        count_of(buckets, buckets[i].0) == buckets[i].1,
    decreases buckets.len(),
{
    if i > 0 {
        let rest = buckets.drop_first();
        assert(buckets[0].0 != buckets[i].0);
        assert forall|a: int, b: int| 0 <= a < b < rest.len() implies (#[trigger] rest[a]).0 != (
        #[trigger] rest[b]).0 by {
            assert(rest[a] == buckets[a + 1] && rest[b] == buckets[b + 1]);
        }
        assert(rest[i - 1] == buckets[i]);
        lemma_count_of_bucket(rest, i - 1);
    }
}

/// A label that no bucket has counts zero.
pub proof fn lemma_count_of_absent(buckets: Seq<(Seq<char>, u64)>, label: Seq<char>)
    requires
        forall|i: int| 0 <= i < buckets.len() ==> (#[trigger] buckets[i]).0 != label,
    ensures
        count_of(buckets, label) == 0,
    decreases buckets.len(),
{
    if buckets.len() > 0 {
        let rest = buckets.drop_first();
        assert(buckets[0].0 != label);
        assert forall|i: int| 0 <= i < rest.len() implies (#[trigger] rest[i]).0 != label by {
            assert(rest[i] == buckets[i + 1]);
        }
        lemma_count_of_absent(rest, label);
    }
}

/// Taking one bucket out takes its weight off the number under way.
pub proof fn lemma_under_way_without(buckets: Seq<(Seq<char>, u64)>, i: int)
    requires
        0 <= i < buckets.len(),
    ensures
        under_way(buckets) == under_way(buckets.remove(i)) + weight(buckets[i]),
    decreases buckets.len(),
{
    if i == buckets.len() - 1 {
        assert(buckets.remove(i) =~= buckets.drop_last());
    } else {
        let without = buckets.remove(i);
        assert(without.last() == buckets.last());
        assert(without.drop_last() =~= buckets.drop_last().remove(i));
        assert(buckets.drop_last()[i] == buckets[i]);
        lemma_under_way_without(buckets.drop_last(), i);
    }
}

/// The number under way does not depend on the order in which the buckets
/// are listed: two lists of the same buckets give the same number.
pub proof fn lemma_under_way_in_any_order(
    one: Seq<(Seq<char>, u64)>,
    other: Seq<(Seq<char>, u64)>,
)
    requires
        one.to_multiset() == other.to_multiset(),
    ensures
        under_way(one) == under_way(other),
    decreases one.len(),
{
    broadcast use vstd::seq_lib::group_to_multiset_ensures;

    one.to_multiset_ensures();
    other.to_multiset_ensures();
    if one.len() == 0 {
        assert(other.len() == 0);
    } else {
        let last = one.last();
        assert(one.contains(last));
        assert(one.to_multiset().count(last) > 0);
        assert(other.to_multiset().count(last) > 0);
        assert(other.contains(last));
        let j = choose|j: int| 0 <= j < other.len() && other[j] == last;
        assert(one.drop_last() =~= one.remove(one.len() - 1));
        assert(one.drop_last().to_multiset() == other.remove(j).to_multiset());
        lemma_under_way_in_any_order(one.drop_last(), other.remove(j));
        lemma_under_way_without(other, j);
    }
}

/// Where no label occurs twice, the count of a label does not depend on the
/// order in which the buckets are listed.
pub proof fn lemma_count_of_in_any_order(
    one: Seq<(Seq<char>, u64)>,
    other: Seq<(Seq<char>, u64)>,
    label: Seq<char>,
)
    requires
        distinct_labels(one),
        distinct_labels(other),
        one.to_multiset() == other.to_multiset(),
    ensures
        count_of(one, label) == count_of(other, label),
{
    broadcast use vstd::seq_lib::group_to_multiset_ensures;

    one.to_multiset_ensures();
    other.to_multiset_ensures();
    if exists|i: int| 0 <= i < one.len() && (#[trigger] one[i]).0 == label {
        let i = choose|i: int| 0 <= i < one.len() && (#[trigger] one[i]).0 == label;
        assert(one.contains(one[i]));
        assert(one.to_multiset().count(one[i]) > 0);
        assert(other.to_multiset().count(one[i]) > 0);
        assert(other.contains(one[i]));
        let j = choose|j: int| 0 <= j < other.len() && other[j] == one[i];
        lemma_count_of_bucket(one, i);
        lemma_count_of_bucket(other, j);
    } else {
        assert forall|j: int| 0 <= j < other.len() implies (#[trigger] other[j]).0 != label by {
            assert(other.contains(other[j]));
            assert(other.to_multiset().count(other[j]) > 0);
            assert(one.to_multiset().count(other[j]) > 0);
            assert(one.contains(other[j]));
            let i = choose|i: int| 0 <= i < one.len() && one[i] == other[j];
            assert(one[i].0 != label);
        }
        lemma_count_of_absent(one, label);
        lemma_count_of_absent(other, label);
    }
}

/// The mapping that `buckets` stand for: each label that occurs, with its count.
pub open spec fn counts(buckets: Seq<(Seq<char>, u64)>) -> Map<Seq<char>, u64> {
    Map::new(
        |label: Seq<char>|
            exists|i: int| 0 <= i < buckets.len() && (#[trigger] buckets[i]).0 == label,
        |label: Seq<char>| count_of(buckets, label),
    )
}

/// The count of a label is what the mapping has for it, and zero where the
/// mapping has nothing.
pub proof fn lemma_count_of_mapping(buckets: Seq<(Seq<char>, u64)>, label: Seq<char>)
    ensures
        count_of(buckets, label) == if counts(buckets).contains_key(label) {
            counts(buckets)[label]
        } else {
            0
        },
{
    if !counts(buckets).contains_key(label) {
        lemma_count_of_absent(buckets, label);
    }
}

/// Where no label occurs twice, every bucket is an entry of the mapping.
pub proof fn lemma_counts_hold_every_bucket(buckets: Seq<(Seq<char>, u64)>, i: int)
    requires
        distinct_labels(buckets),
        0 <= i < buckets.len(),
    ensures
        counts(buckets).contains_key(buckets[i].0),
        counts(buckets)[buckets[i].0] == buckets[i].1,
{
    lemma_count_of_bucket(buckets, i);
}

/// Where no label occurs twice, the counters are those of the mapping: two
/// lists that stand for one mapping give the same number under way and the
/// same count for every label.
pub proof fn lemma_numbers_are_of_the_mapping(
    one: Seq<(Seq<char>, u64)>,
    other: Seq<(Seq<char>, u64)>,
)
    requires
        distinct_labels(one),
        distinct_labels(other),
        counts(one) == counts(other),
    ensures
        under_way(one) == under_way(other),
        forall|label: Seq<char>| count_of(one, label) == count_of(other, label),
{
    broadcast use vstd::seq_lib::group_to_multiset_ensures;

    one.to_multiset_ensures();
    other.to_multiset_ensures();
    lemma_distinct_buckets(one);
    lemma_distinct_buckets(other);
    one.lemma_multiset_has_no_duplicates();
    other.lemma_multiset_has_no_duplicates();
    assert forall|x: (Seq<char>, u64)| one.contains(x) <==> other.contains(x) by {
        if one.contains(x) {
            lemma_bucket_of_same_mapping(one, other, x);
        }
        if other.contains(x) {
            lemma_bucket_of_same_mapping(other, one, x);
        }
    }
    assert forall|x: (Seq<char>, u64)|
        one.to_multiset().count(x) == other.to_multiset().count(x) by {
        if one.contains(x) {
            assert(one.to_multiset().contains(x));
            assert(other.to_multiset().contains(x));
        } else {
            assert(!other.contains(x));
            assert(one.to_multiset().count(x) == 0);
            assert(other.to_multiset().count(x) == 0);
        }
    }
    assert(one.to_multiset() =~= other.to_multiset());
    lemma_under_way_in_any_order(one, other);
    assert forall|label: Seq<char>| count_of(one, label) == count_of(other, label) by {
        lemma_count_of_in_any_order(one, other, label);
    }
}

/// A bucket of one list is a bucket of every list that stands for the same
/// mapping.
proof fn lemma_bucket_of_same_mapping(
    one: Seq<(Seq<char>, u64)>,
    other: Seq<(Seq<char>, u64)>,
    x: (Seq<char>, u64),
)
    requires
        distinct_labels(one),
        distinct_labels(other),
        counts(one) == counts(other),
        one.contains(x),
    ensures
        other.contains(x),
{
    let i = choose|i: int| 0 <= i < one.len() && one[i] == x;
    lemma_counts_hold_every_bucket(one, i);
    assert(counts(other).contains_key(x.0));
    let j = choose|j: int| 0 <= j < other.len() && (#[trigger] other[j]).0 == x.0;
    lemma_counts_hold_every_bucket(other, j);
    assert(other[j] == x);
}

/// Buckets with distinct labels are distinct buckets.
proof fn lemma_distinct_buckets(buckets: Seq<(Seq<char>, u64)>)
    requires
        distinct_labels(buckets),
    ensures
        buckets.no_duplicates(),
{
    assert forall|i: int, j: int|
        0 <= i < buckets.len() && 0 <= j < buckets.len() && i != j implies buckets[i]
        != buckets[j] by {
        if i < j {
            assert(buckets[i].0 != buckets[j].0);
        } else {
            assert(buckets[j].0 != buckets[i].0);
        }
    }
}

/// A sum over the first `n` buckets is no larger than the sum over all.
pub proof fn lemma_under_way_grows(buckets: Seq<(Seq<char>, u64)>, n: int)
    requires
        0 <= n <= buckets.len(),
    ensures
        under_way(buckets.take(n)) <= under_way(buckets),
    decreases buckets.len() - n,
{
    if n == buckets.len() {
        assert(buckets.take(n) =~= buckets);
    } else {
        let next = buckets.take(n + 1);
        assert(next.drop_last() =~= buckets.take(n));
        lemma_under_way_grows(buckets, n + 1);
    }
}

} // verus!
