use std::collections::HashMap;
use vstd::prelude::*;
use vstd::std_specs::hash::*;

verus! {

broadcast use vstd::std_specs::hash::group_hash_axioms;

/// How many one-second buckets an estimator keeps.
pub const RETAINED_BUCKETS: usize = 3;

/// Frames counted so far in the bucket of second `secs`.
pub open spec fn count_at(buckets: Map<u64, u32>, secs: u64) -> nat {
    if buckets.contains_key(secs) {
        buckets[secs] as nat
    } else {
        0
    }
}

/// `k` is a key of `buckets` and no key is smaller.
pub open spec fn is_smallest_key(buckets: Map<u64, u32>, k: u64) -> bool {
    &&& buckets.contains_key(k)
    &&& forall|j: u64| buckets.contains_key(j) ==> k <= j
}

/// The smallest key of a map that has one.
pub open spec fn smallest_key(buckets: Map<u64, u32>) -> u64 {
    choose|k: u64| is_smallest_key(buckets, k)
}

/// The buckets after one more frame has been counted in second `secs`.
pub open spec fn counted(buckets: Map<u64, u32>, secs: u64) -> Map<u64, u32> {
    buckets.insert(secs, (count_at(buckets, secs) + 1) as u32)
}

/// The buckets cut back to the retained number: when there are more, the one
/// with the smallest key goes.
pub open spec fn trimmed(buckets: Map<u64, u32>) -> Map<u64, u32> {
    if buckets.len() > RETAINED_BUCKETS {
        buckets.remove(smallest_key(buckets))
    } else {
        buckets
    }
}

/// The buckets after a frame that arrived in second `secs` has been recorded.
pub open spec fn recorded(buckets: Map<u64, u32>, secs: u64) -> Map<u64, u32> {
    trimmed(counted(buckets, secs))
}

/// The rate that a frame arriving in second `secs` makes known: the count of
/// the second before, if that second has a bucket.
pub open spec fn rate_of_previous(buckets: Map<u64, u32>, secs: u64) -> Option<u32> {
    if secs >= 1 && buckets.contains_key((secs - 1) as u64) {
        Some(buckets[(secs - 1) as u64])
    } else {
        None
    }
}

/// A map has at most one smallest key: the one that `smallest_key` picks.
pub proof fn lemma_smallest_key_unique(buckets: Map<u64, u32>, k: u64)
    requires
        is_smallest_key(buckets, k),
    ensures
        smallest_key(buckets) == k,
{
}

/// Counts the frames of a session by the whole second in which they arrive,
/// and keeps the counts of the most recent seconds only.
///
/// The rate it makes known is always that of a second that has fully elapsed,
/// never the count of the second in progress.
pub struct FpsEstimator {
    buckets: HashMap<u64, u32>,
}

impl View for FpsEstimator {
    type V = Map<u64, u32>;

    closed spec fn view(&self) -> Map<u64, u32> {
        self.buckets@
    }
}

impl FpsEstimator {
    /// The estimator holds finitely many buckets, and no more than it retains.
    pub open spec fn wf(&self) -> bool {
        &&& self@.dom().finite()
        &&& self@.len() <= RETAINED_BUCKETS
    }

    /// An estimator that has seen no frame.
    pub fn new() -> (estimator: FpsEstimator)
        ensures
            estimator.wf(),
            estimator@ == Map::<u64, u32>::empty(),
    {
        FpsEstimator { buckets: HashMap::new() }
    }

    /// Records a frame that arrived `secs` whole seconds into the session, and
    /// returns the rate to publish, if the second before has been counted.
    pub fn record(&mut self, secs: u64) -> (rate: Option<u32>)
        requires
            old(self).wf(),
            count_at(old(self)@, secs) < u32::MAX,
        ensures
            final(self).wf(),
            final(self)@ == recorded(old(self)@, secs),
            rate == rate_of_previous(old(self)@, secs),
    {
        let count: u32 = match self.buckets.get(&secs) {
            Some(n) => *n + 1,
            None => 1,
        };
        self.buckets.insert(secs, count);
        let rate = if secs >= 1 {
            match self.buckets.get(&(secs - 1)) {
                Some(n) => Some(*n),
                None => None,
            }
        } else {
            None
        };
        if self.buckets.len() > RETAINED_BUCKETS {
            let oldest = self.smallest();
            match oldest {
                Some(k) => {
                    self.buckets.remove(&k);
                },
                None => {},
            }
        }
        rate
    }

    /// The count of the bucket of second `secs`, if it is still retained.
    pub fn count(&self, secs: u64) -> (n: Option<u32>)
        ensures
            n == (if self@.contains_key(secs) {
                Some(self@[secs])
            } else {
                None
            }),
    {
        match self.buckets.get(&secs) {
            Some(n) => Some(*n),
            None => None,
        }
    }

    /// How many buckets are retained.
    pub fn len(&self) -> (n: usize)
        ensures
            n == self@.len(),
    {
        self.buckets.len()
    }

    /// The smallest second that has a bucket, if there is any bucket.
    fn smallest(&self) -> (found: Option<u64>)
        ensures
            self@.len() == 0 ==> found is None,
            self@.len() > 0 ==> found == Some(smallest_key(self@)) && is_smallest_key(
                self@,
                smallest_key(self@),
            ),
    {
        let mut smallest: Option<u64> = None;
        let ghost mut seen: Seq<u64> = Seq::empty();
        for k in it: self.buckets.keys()
            invariant
                it.seq().unref().to_set() == self.buckets@.dom(),
                seen == it.seq().unref().take(it.index()),
                it.index() == it.seq().len() ==> seen.to_set() == self.buckets@.dom(),
                smallest is None <==> seen.len() == 0,
                smallest matches Some(s) ==> self.buckets@.contains_key(s) && forall|j: int|
                    0 <= j < seen.len() ==> s <= seen[j],
        {
            assert(it.seq().unref().take(it.index() + 1) == seen.push(*k));
            assert(it.seq().unref().take(it.seq().len() as int) == it.seq().unref());
            smallest = match smallest {
                Some(s) => if *k < s { Some(*k) } else { Some(s) },
                None => Some(*k),
            };
            proof {
                seen = seen.push(*k);
            }
        }
        proof {
            if self@.len() > 0 {
                // every key has been seen, and none that was seen is smaller
                let s = smallest->0;
                assert forall|j: u64| self.buckets@.contains_key(j) implies s <= j by {
                    let i = choose|i: int| 0 <= i < seen.len() && seen[i] == j;
                    assert(s <= seen[i]);
                }
                lemma_smallest_key_unique(self@, s);
            } else {
                self@.dom().lemma_len0_is_empty();
            }
        }
        smallest
    }
}

/// How many of the frames that arrived at `times` arrived in second `sec`.
pub open spec fn frames_in(times: Seq<u64>, sec: u64) -> nat
    decreases times.len(),
{
    if times.len() == 0 {
        0
    } else {
        frames_in(times.drop_last(), sec) + if times.last() == sec {
            1nat
        } else {
            0nat
        }
    }
}

/// The buckets of an estimator that started empty and recorded one frame for
/// each entry of `times`, in turn.
pub open spec fn buckets_after(times: Seq<u64>) -> Map<u64, u32>
    decreases times.len(),
{
    if times.len() == 0 {
        Map::empty()
    } else {
        recorded(buckets_after(times.drop_last()), times.last())
    }
}

/// The arrival times never go back.
pub open spec fn in_order(times: Seq<u64>) -> bool {
    forall|i: int, j: int| 0 <= i <= j < times.len() ==> times[i] <= times[j]
}

/// No second of `times` holds more frames than a bucket can count.
pub open spec fn countable(times: Seq<u64>) -> bool {
    forall|sec: u64| frames_in(times, sec) <= u32::MAX
}

/// A finite set of seconds that is not empty has a smallest member.
proof fn lemma_set_has_smallest(keys: Set<u64>)
    requires
        keys.finite(),
        keys.len() > 0,
    ensures
        exists|k: u64| keys.contains(k) && forall|j: u64| keys.contains(j) ==> k <= j,
    decreases keys.len(),
{
    let a = keys.choose();
    let rest = keys.remove(a);
    if rest.len() == 0 {
        // `a` is the only member
        rest.lemma_len0_is_empty();
        assert forall|j: u64| keys.contains(j) implies a <= j by {
            assert(j == a || rest.contains(j));
        }
    } else {
        // the smaller of `a` and the smallest of the rest
        lemma_set_has_smallest(rest);
        let m = choose|k: u64| rest.contains(k) && forall|j: u64| rest.contains(j) ==> k <= j;
        let least = if a <= m {
            a
        } else {
            m
        };
        assert forall|j: u64| keys.contains(j) implies least <= j by {
            assert(j == a || rest.contains(j));
        }
    }
}

/// Finitely many buckets, if there are any, have a smallest key.
pub proof fn lemma_smallest_key_exists(buckets: Map<u64, u32>)
    requires
        buckets.dom().finite(),
        buckets.len() > 0,
    ensures
        is_smallest_key(buckets, smallest_key(buckets)),
{
    lemma_set_has_smallest(buckets.dom());
    let k = choose|k: u64|
        buckets.dom().contains(k) && forall|j: u64| buckets.dom().contains(j) ==> k <= j;
    assert(is_smallest_key(buckets, k));
}

/// Recording a frame keeps the number of buckets within what is retained.
pub proof fn lemma_recorded_is_bounded(buckets: Map<u64, u32>, secs: u64)
    requires
        buckets.dom().finite(),
        buckets.len() <= RETAINED_BUCKETS,
    ensures
        recorded(buckets, secs).dom().finite(),
        recorded(buckets, secs).len() <= RETAINED_BUCKETS,
{
    let grown = counted(buckets, secs);
    if grown.len() > RETAINED_BUCKETS {
        lemma_smallest_key_exists(grown);
    }
}

/// However many frames arrive, and whenever, an estimator that started empty
/// never holds more buckets than it retains.
pub proof fn lemma_buckets_never_exceed_retained(times: Seq<u64>)
    ensures
        buckets_after(times).dom().finite(),
        buckets_after(times).len() <= RETAINED_BUCKETS,
    decreases times.len(),
{
    if times.len() > 0 {
        lemma_buckets_never_exceed_retained(times.drop_last());
        lemma_recorded_is_bounded(buckets_after(times.drop_last()), times.last());
    }
}

/// A second in which a frame arrived is one of the arrival times.
proof fn lemma_frames_in_witness(times: Seq<u64>, sec: u64)
    requires
        frames_in(times, sec) > 0,
    ensures
        exists|i: int| 0 <= i < times.len() && times[i] == sec,
    decreases times.len(),
{
    if times.last() != sec {
        lemma_frames_in_witness(times.drop_last(), sec);
        let i = choose|i: int| 0 <= i < times.drop_last().len() && times.drop_last()[i] == sec;
        assert(times[i] == sec);
    }
}

/// While the arrival times never go back, the buckets hold exact counts, only
/// of seconds in which a frame arrived, and the last second and the one before
/// it are retained if a frame arrived in them.
proof fn lemma_buckets_track_frames(times: Seq<u64>)
    requires
        in_order(times),
        countable(times),
    ensures
        buckets_after(times).dom().finite(),
        buckets_after(times).len() <= RETAINED_BUCKETS,
        forall|k: u64| #[trigger]
            buckets_after(times).contains_key(k) ==> buckets_after(times)[k] == frames_in(times, k)
                && frames_in(times, k) > 0,
        forall|k: u64|
            times.len() > 0 && #[trigger] frames_in(times, k) > 0 && k + 1 >= times.last()
                ==> buckets_after(times).contains_key(k),
    decreases times.len(),
{
    lemma_buckets_never_exceed_retained(times);
    if times.len() > 0 {
        let earlier = times.drop_last();
        let t = times.last();
        assert(in_order(earlier));
        assert(countable(earlier)) by {
            assert forall|sec: u64| frames_in(earlier, sec) <= u32::MAX by {
                assert(frames_in(times, sec) <= u32::MAX);
            }
        }
        lemma_buckets_track_frames(earlier);
        lemma_buckets_never_exceed_retained(earlier);
        let before = buckets_after(earlier);
        let grown = counted(before, t);
        // every second with a frame in `earlier` is no later than `t`
        assert forall|k: u64| frames_in(earlier, k) > 0 implies k <= t by {
            lemma_frames_in_witness(earlier, k);
            let i = choose|i: int| 0 <= i < earlier.len() && earlier[i] == k;
            assert(times[i] <= times.last());
        }
        // the bucket of `t` held every earlier frame of `t`
        assert(count_at(before, t) == frames_in(earlier, t)) by {
            if frames_in(earlier, t) > 0 {
                lemma_frames_in_witness(earlier, earlier.last());
            }
        }
        // so the counts are exact once this frame is counted
        assert forall|k: u64| #[trigger] grown.contains_key(k) implies grown[k] == frames_in(
            times,
            k,
        ) && frames_in(times, k) > 0 && k <= t by {}
        if grown.len() > RETAINED_BUCKETS {
            lemma_smallest_key_exists(grown);
            let m = smallest_key(grown);
            // the smallest of more than three seconds, none later than `t`,
            // is earlier than the second before `t`
            assert(m + 1 < t) by {
                if m + 1 >= t {
                    let two = Set::<u64>::empty().insert(m).insert(t);
                    assert(grown.dom().subset_of(two));
                    vstd::set_lib::lemma_len_subset(grown.dom(), two);
                }
            }
        }
        assert forall|k: u64| #[trigger]
            frames_in(times, k) > 0 && k + 1 >= t implies buckets_after(times).contains_key(k) by {
            if k != t {
                assert(frames_in(earlier, k) == frames_in(times, k));
            }
        }
    }
}

/// The frame rate that becomes known when a second has fully elapsed.
///
/// Frames arrive at `times`, which never go back, and then one more arrives in
/// second `secs`, no earlier than any of them. What that frame publishes is
/// the exact number of frames that arrived in the second before `secs`; if
/// none did, it publishes nothing.
pub proof fn lemma_rate_counts_previous_second(times: Seq<u64>, secs: u64)
    requires
        in_order(times.push(secs)),
        countable(times),
        secs >= 1,
    ensures
        rate_of_previous(buckets_after(times), secs) == (if frames_in(times, (secs - 1) as u64)
            > 0 {
            Some(frames_in(times, (secs - 1) as u64) as u32)
        } else {
            None
        }),
{
    let all = times.push(secs);
    assert(in_order(times)) by {
        assert forall|i: int, j: int| 0 <= i <= j < times.len() implies times[i] <= times[j] by {
            assert(all[i] == times[i] && all[j] == times[j]);
        }
    }
    lemma_buckets_track_frames(times);
    let previous = (secs - 1) as u64;
    if frames_in(times, previous) > 0 {
        assert(all[times.len() - 1] <= all[times.len() as int]);
    }
}

} // verus!
