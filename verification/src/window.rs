//! A sliding window of fixed length over the recent calls, cut into buckets.

use vstd::prelude::*;
use crate::buckets::{bucket_list_items, Bucket, BucketList, MAX_BUCKETS};
use crate::ratio::Ratio;

verus! {

/// Whether a bucket is too old to count at time `now`: its start lies before
/// `now - window_size`.
pub open spec fn is_stale(bucket: Bucket, now: u64, window_size: u64) -> bool {
    bucket.0 + window_size < now
}

/// The buckets that are left once the stale ones at the front are dropped.
pub open spec fn drop_stale(buckets: Seq<Bucket>, now: u64, window_size: u64) -> Seq<Bucket>
    decreases buckets.len(),
{
    if buckets.len() > 0 && is_stale(buckets[0], now, window_size) {
        drop_stale(buckets.drop_first(), now, window_size)
    } else {
        buckets
    }
}

/// Whether the buckets are in the order of their start times.
pub open spec fn ascending(buckets: Seq<Bucket>) -> bool {
    forall|i: int, j: int| 0 <= i <= j < buckets.len() ==> buckets[i].0 <= buckets[j].0
}

/// The successes of all buckets, added as 64-bit arithmetic adds them.
pub open spec fn successes_in(buckets: Seq<Bucket>) -> u64
    decreases buckets.len(),
{
    if buckets.len() == 0 {
        0
    } else {
        successes_in(buckets.drop_last()).wrapping_add(buckets.last().1)
    }
}

/// The failures of all buckets, added as 64-bit arithmetic adds them.
pub open spec fn failures_in(buckets: Seq<Bucket>) -> u64
    decreases buckets.len(),
{
    if buckets.len() == 0 {
        0
    } else {
        failures_in(buckets.drop_last()).wrapping_add(buckets.last().2)
    }
}

/// A bucket with one more call of the given outcome counted in it.
pub open spec fn bump(bucket: Bucket, success: bool) -> Bucket {
    if success {
        (bucket.0, bucket.1.wrapping_add(1), bucket.2)
    } else {
        (bucket.0, bucket.1, bucket.2.wrapping_add(1))
    }
}

/// A bucket that starts at `now` and holds one call of the given outcome.
pub open spec fn fresh_bucket(success: bool, now: u64) -> Bucket {
    if success {
        (now, 1, 0)
    } else {
        (now, 0, 1)
    }
}

/// What a [`FixedWindow`] holds: its buckets, oldest first, the length of the
/// window and the length of one bucket.
pub struct WindowView {
    pub buckets: Seq<Bucket>,
    pub window_size: u64,
    pub bucket_size: u64,
}

impl WindowView {
    /// The window at time `now`, without the buckets that have become stale.
    pub open spec fn evicted(self, now: u64) -> WindowView {
        WindowView { buckets: drop_stale(self.buckets, now, self.window_size), ..self }
    }

    /// Whether a call at time `now` is counted in the newest bucket: there is
    /// one, and its age does not exceed the length of a bucket.
    pub open spec fn newest_takes(self, now: u64) -> bool {
        self.buckets.len() > 0 && now.saturating_sub(self.buckets.last().0) <= self.bucket_size
    }

    /// The window after a call of the given outcome at time `now`: stale
    /// buckets are dropped, then the call is counted in the newest bucket or
    /// in a new one.
    pub open spec fn recorded(self, success: bool, now: u64) -> WindowView {
        let kept = self.evicted(now);
        if kept.newest_takes(now) {
            WindowView {
                buckets: kept.buckets.update(
                    kept.buckets.len() - 1,
                    bump(kept.buckets.last(), success),
                ),
                ..kept
            }
        } else {
            WindowView { buckets: kept.buckets.push(fresh_bucket(success, now)), ..kept }
        }
    }

    /// Failures over calls in the buckets held; zero when they hold no call.
    pub open spec fn rate(self) -> Ratio {
        Ratio {
            num: failures_in(self.buckets),
            den: successes_in(self.buckets).wrapping_add(failures_in(self.buckets)),
        }
    }

    /// The error rate at time `now`: that of the buckets that are left once
    /// the stale ones are dropped.
    pub open spec fn rate_at(self, now: u64) -> Ratio {
        self.evicted(now).rate()
    }

    /// Whether one more call can be recorded: the list of buckets is not at
    /// its largest length.
    pub open spec fn has_room(self) -> bool {
        self.buckets.len() < MAX_BUCKETS
    }

    /// Whether the buckets are held in the order of their start times.
    pub open spec fn ordered(self) -> bool {
        ascending(self.buckets)
    }
}

/// Counts calls over a sliding window of fixed length, cut into buckets.
pub struct FixedWindow {
    buckets: BucketList,
    window_size: u64,
    bucket_size: u64,
}

impl View for FixedWindow {
    type V = WindowView;

    closed spec fn view(&self) -> WindowView {
        WindowView {
            buckets: bucket_list_items(self.buckets),
            window_size: self.window_size,
            bucket_size: self.bucket_size,
        }
    }
}

/// Whether a bucket is stale at time `now`.
fn stale(bucket: &Bucket, now: u64, window_size: u64) -> (result: bool)
    ensures
        result == is_stale(*bucket, now, window_size),
{
    (bucket.0 as u128) + (window_size as u128) < (now as u128)
}

/// Removes the stale buckets at the front of the list.
fn evict(list: &mut BucketList, now: u64, window_size: u64)
    ensures
        bucket_list_items(*final(list)) == drop_stale(
            bucket_list_items(*old(list)),
            now,
            window_size,
        ),
{
    let ghost before = bucket_list_items(*list);
    loop
        invariant
            drop_stale(bucket_list_items(*list), now, window_size) == drop_stale(
                before,
                now,
                window_size,
            ),
        ensures
            bucket_list_items(*list) == drop_stale(before, now, window_size),
        decreases bucket_list_items(*list).len(),
    {
        let slice = list.as_slice();
        if slice.len() == 0 {
            break;
        }
        if !stale(&slice[0], now, window_size) {
            break;
        }
        let ghost current = bucket_list_items(*list);
        list.remove(0);
        assert(bucket_list_items(*list) == current.drop_first());
    }
}

/// Adds up the successes and the failures of the buckets from `from` on.
fn tally(slice: &[Bucket], from: usize) -> (sums: (u64, u64))
    requires
        from <= slice@.len(),
    ensures
        sums.0 == successes_in(slice@.skip(from as int)),
        sums.1 == failures_in(slice@.skip(from as int)),
{
    let ghost rest = slice@.skip(from as int);
    let mut successes: u64 = 0;
    let mut failures: u64 = 0;
    let mut index: usize = from;
    while index < slice.len()
        invariant
            from <= index <= slice@.len(),
            rest == slice@.skip(from as int),
            successes == successes_in(rest.take(index - from)),
            failures == failures_in(rest.take(index - from)),
        decreases slice@.len() - index,
    {
        assert(rest.take(index - from + 1).drop_last() == rest.take(index - from));
        assert(rest.take(index - from + 1).last() == slice@[index as int]);
        successes = successes.wrapping_add(slice[index].1);
        failures = failures.wrapping_add(slice[index].2);
        index = index + 1;
    }
    assert(rest.take(index - from) == rest);
    (successes, failures)
}

impl FixedWindow {
    /// A window of length `window_size`, cut into `bucket_count` buckets of
    /// equal length. The count is taken as a 32-bit number and must not be
    /// zero as such.
    pub fn new(window_size: u64, bucket_count: usize) -> (window: FixedWindow)
        requires
            bucket_count as u32 != 0,
        ensures
            window@ == (WindowView {
                buckets: Seq::<Bucket>::empty(),
                window_size,
                bucket_size: window_size / ((bucket_count as u32) as u64),
            }),
            window@.ordered(),
    {
        let parts: u32 = bucket_count as u32;
        FixedWindow {
            buckets: BucketList::new(),
            window_size,
            bucket_size: window_size / (parts as u64),
        }
    }

    /// Records a call of the given outcome at time `now`.
    fn record(&mut self, success: bool, now: u64)
        requires
            old(self)@.has_room(),
        ensures
            final(self)@ == old(self)@.recorded(success, now),
            old(self)@.ordered() ==> final(self)@.ordered(),
    {
        proof {
            if old(self)@.ordered() {
                lemma_recorded_keeps_order(old(self)@, success, now);
            }
        }
        evict(&mut self.buckets, now, self.window_size);
        proof {
            lemma_drop_stale_shortens(old(self)@.buckets, now, self.window_size);
        }
        let slice = self.buckets.as_slice();
        let count: usize = slice.len();
        if count > 0 {
            let newest: Bucket = slice[count - 1];
            if now.saturating_sub(newest.0) <= self.bucket_size {
                let bumped: Bucket = if success {
                    (newest.0, newest.1.wrapping_add(1), newest.2)
                } else {
                    (newest.0, newest.1, newest.2.wrapping_add(1))
                };
                self.buckets.set(count - 1, bumped);
                return;
            }
        }
        let added: Bucket = if success {
            (now, 1, 0)
        } else {
            (now, 0, 1)
        };
        self.buckets.push(added);
    }

    /// Records a successful call at time `now`.
    pub fn record_success(&mut self, now: u64)
        requires
            old(self)@.has_room(),
        ensures
            final(self)@ == old(self)@.recorded(true, now),
            old(self)@.ordered() ==> final(self)@.ordered(),
    {
        self.record(true, now)
    }

    /// Records a failed call at time `now`.
    pub fn record_failure(&mut self, now: u64)
        requires
            old(self)@.has_room(),
        ensures
            final(self)@ == old(self)@.recorded(false, now),
            old(self)@.ordered() ==> final(self)@.ordered(),
    {
        self.record(false, now)
    }

    /// Drops the buckets that are stale at time `now` and returns the error
    /// rate of those that are left.
    pub fn error_rate(&mut self, now: u64) -> (rate: Ratio)
        ensures
            final(self)@ == old(self)@.evicted(now),
            rate == old(self)@.rate_at(now),
            old(self)@.ordered() ==> final(self)@.ordered(),
    {
        proof {
            lemma_drop_stale_is_suffix(old(self)@.buckets, now, self.window_size);
        }
        evict(&mut self.buckets, now, self.window_size);
        let slice = self.buckets.as_slice();
        let sums = tally(slice, 0);
        assert(slice@.skip(0) == slice@);
        Ratio::new(sums.1, sums.0.wrapping_add(sums.1))
    }

    /// The error rate at time `now`, with the window left as it is.
    pub fn rate_at(&self, now: u64) -> (rate: Ratio)
        ensures
            rate == self@.rate_at(now),
    {
        let slice = self.buckets.as_slice();
        let mut first: usize = 0;
        assert(slice@.skip(0) == slice@);
        while first < slice.len() && stale(&slice[first], now, self.window_size)
            invariant
                first <= slice@.len(),
                drop_stale(slice@.skip(first as int), now, self.window_size) == drop_stale(
                    slice@,
                    now,
                    self.window_size,
                ),
            decreases slice@.len() - first,
        {
            assert(slice@.skip(first as int).drop_first() == slice@.skip(first + 1));
            first = first + 1;
        }
        let sums = tally(slice, first);
        Ratio::new(sums.1, sums.0.wrapping_add(sums.1))
    }

    /// The buckets held, oldest first.
    pub fn buckets(&self) -> (buckets: Vec<Bucket>)
        ensures
            buckets@ == self@.buckets,
    {
        let slice = self.buckets.as_slice();
        let mut buckets: Vec<Bucket> = Vec::new();
        let mut index: usize = 0;
        while index < slice.len()
            invariant
                index <= slice@.len(),
                buckets@ == slice@.take(index as int),
            decreases slice@.len() - index,
        {
            buckets.push(slice[index]);
            assert(buckets@ == slice@.take(index + 1));
            index = index + 1;
        }
        assert(slice@.take(index as int) == slice@);
        buckets
    }

    /// The length of the window.
    pub fn window_size(&self) -> (size: u64)
        ensures
            size == self@.window_size,
    {
        self.window_size
    }

    /// The length of one bucket.
    pub fn bucket_size(&self) -> (size: u64)
        ensures
            size == self@.bucket_size,
    {
        self.bucket_size
    }

    /// The number of buckets held.
    pub fn bucket_count(&self) -> (count: usize)
        ensures
            count == self@.buckets.len(),
    {
        self.buckets.as_slice().len()
    }

    /// Whether one more call can be recorded.
    pub fn has_room(&self) -> (room: bool)
        ensures
            room == self@.has_room(),
    {
        self.buckets.as_slice().len() < MAX_BUCKETS
    }
}

/// The number of stale buckets at the front of the list.
pub open spec fn stale_count(buckets: Seq<Bucket>, now: u64, window_size: u64) -> nat
    decreases buckets.len(),
{
    if buckets.len() > 0 && is_stale(buckets[0], now, window_size) {
        1 + stale_count(buckets.drop_first(), now, window_size)
    } else {
        0
    }
}

/// Dropping stale buckets takes a run of stale buckets off the front and
/// keeps the rest as it is; the first bucket kept, if there is one, is not
/// stale.
pub proof fn lemma_drop_stale_is_suffix(buckets: Seq<Bucket>, now: u64, window_size: u64)
    ensures
        stale_count(buckets, now, window_size) <= buckets.len(),
        drop_stale(buckets, now, window_size) == buckets.skip(
            stale_count(buckets, now, window_size) as int,
        ),
        forall|i: int|
            0 <= i < stale_count(buckets, now, window_size) ==> is_stale(
                #[trigger] buckets[i],
                now,
                window_size,
            ),
        stale_count(buckets, now, window_size) < buckets.len() ==> !is_stale(
            buckets[stale_count(buckets, now, window_size) as int],
            now,
            window_size,
        ),
    decreases buckets.len(),
{
    if buckets.len() > 0 && is_stale(buckets[0], now, window_size) {
        let rest = buckets.drop_first();
        lemma_drop_stale_is_suffix(rest, now, window_size);
        let k = stale_count(rest, now, window_size) as int;
        assert(rest.skip(k) == buckets.skip(k + 1));
        assert forall|i: int| 0 <= i < k + 1 implies is_stale(
            #[trigger] buckets[i],
            now,
            window_size,
        ) by {
            if i > 0 {
                assert(buckets[i] == rest[i - 1]);
            }
        }
        if k + 1 < buckets.len() {
            assert(buckets[k + 1] == rest[k]);
        }
    } else {
        assert(buckets.skip(0) == buckets);
    }
}

/// Buckets that are older than the window do not count, and all others do:
/// in a window whose buckets are in order, dropping the stale ones leaves
/// exactly the buckets that are not stale, in their order.
pub proof fn lemma_only_fresh_buckets_count(window: WindowView, now: u64)
    requires
        window.ordered(),
    ensures
        stale_count(window.buckets, now, window.window_size) <= window.buckets.len(),
        window.evicted(now).buckets == window.buckets.skip(
            stale_count(window.buckets, now, window.window_size) as int,
        ),
        forall|i: int|
            0 <= i < window.buckets.len() ==> (is_stale(
                #[trigger] window.buckets[i],
                now,
                window.window_size,
            ) <==> i < stale_count(window.buckets, now, window.window_size)),
        window.evicted(now).ordered(),
{
    let k = stale_count(window.buckets, now, window.window_size);
    lemma_drop_stale_is_suffix(window.buckets, now, window.window_size);
    assert forall|i: int| 0 <= i < window.buckets.len() implies (is_stale(
        #[trigger] window.buckets[i],
        now,
        window.window_size,
    ) <==> i < k) by {
        if i >= k {
            assert(window.buckets[k as int].0 <= window.buckets[i].0);
        }
    }
}

/// Once every bucket is older than the window, the error rate reads zero.
pub proof fn lemma_rate_of_stale_window_is_zero(window: WindowView, now: u64)
    requires
        forall|i: int|
            0 <= i < window.buckets.len() ==> is_stale(
                #[trigger] window.buckets[i],
                now,
                window.window_size,
            ),
    ensures
        window.evicted(now).buckets.len() == 0,
        window.rate_at(now) == (Ratio { num: 0, den: 0 }),
        window.rate_at(now).is_zero(),
{
    lemma_drop_stale_is_suffix(window.buckets, now, window.window_size);
}

/// Recording a call keeps the buckets in the order of their start times.
pub proof fn lemma_recorded_keeps_order(window: WindowView, success: bool, now: u64)
    requires
        window.ordered(),
    ensures
        window.recorded(success, now).ordered(),
{
    lemma_only_fresh_buckets_count(window, now);
    let kept = window.evicted(now);
    let after = window.recorded(success, now);
    if kept.newest_takes(now) {
        assert forall|i: int, j: int| 0 <= i <= j < after.buckets.len() implies after.buckets[i].0
            <= after.buckets[j].0 by {
            assert(kept.buckets[i].0 <= kept.buckets[j].0);
        }
    } else {
        assert forall|i: int, j: int| 0 <= i <= j < after.buckets.len() implies after.buckets[i].0
            <= after.buckets[j].0 by {
            if j < kept.buckets.len() {
                assert(kept.buckets[i].0 <= kept.buckets[j].0);
            } else if i < kept.buckets.len() {
                assert(kept.buckets[i].0 <= kept.buckets.last().0);
            }
        }
    }
}

/// As time goes on, dropping stale buckets step by step leaves what dropping
/// them in one go leaves: a window whose rate was read at one time without
/// dropping anything holds, after the next call is recorded, the same
/// buckets as one from which the stale buckets were dropped at that time.
pub proof fn lemma_drop_stale_in_steps(
    buckets: Seq<Bucket>,
    earlier: u64,
    later: u64,
    window_size: u64,
)
    requires
        earlier <= later,
    ensures
        drop_stale(drop_stale(buckets, earlier, window_size), later, window_size) == drop_stale(
            buckets,
            later,
            window_size,
        ),
    decreases buckets.len(),
{
    if buckets.len() > 0 && is_stale(buckets[0], earlier, window_size) {
        lemma_drop_stale_in_steps(buckets.drop_first(), earlier, later, window_size);
    }
}

/// The successes of all buckets, added up as numbers without bound.
pub open spec fn total_successes(buckets: Seq<Bucket>) -> int
    decreases buckets.len(),
{
    if buckets.len() == 0 {
        0
    } else {
        total_successes(buckets.drop_last()) + buckets.last().1
    }
}

/// The failures of all buckets, added up as numbers without bound.
pub open spec fn total_failures(buckets: Seq<Bucket>) -> int
    decreases buckets.len(),
{
    if buckets.len() == 0 {
        0
    } else {
        total_failures(buckets.drop_last()) + buckets.last().2
    }
}

/// As long as the calls in a window can be counted in 64 bits, its error
/// rate is the number of its failures over the number of its calls.
pub proof fn lemma_rate_is_exact_while_counts_fit(window: WindowView)
    requires
        total_successes(window.buckets) + total_failures(window.buckets) <= u64::MAX,
    ensures
        window.rate().num == total_failures(window.buckets),
        window.rate().den == total_successes(window.buckets) + total_failures(window.buckets),
{
    lemma_sums_fit(window.buckets);
}

/// Sums that fit in 64 bits are what 64-bit arithmetic computes.
proof fn lemma_sums_fit(buckets: Seq<Bucket>)
    ensures
        0 <= total_successes(buckets),
        0 <= total_failures(buckets),
        total_successes(buckets) <= u64::MAX ==> successes_in(buckets) == total_successes(buckets),
        total_failures(buckets) <= u64::MAX ==> failures_in(buckets) == total_failures(buckets),
    decreases buckets.len(),
{
    if buckets.len() > 0 {
        lemma_sums_fit(buckets.drop_last());
    }
}

/// Dropping stale buckets never makes the list longer.
pub proof fn lemma_drop_stale_shortens(buckets: Seq<Bucket>, now: u64, window_size: u64)
    ensures
        drop_stale(buckets, now, window_size).len() <= buckets.len(),
    decreases buckets.len(),
{
    if buckets.len() > 0 && is_stale(buckets[0], now, window_size) {
        lemma_drop_stale_shortens(buckets.drop_first(), now, window_size);
    }
}

} // verus!
