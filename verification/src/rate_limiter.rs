//! Sliding-window rate limiting: a request under a key is admitted while fewer
//! than `limit` requests under that key were admitted within the window.
use std::time::Instant;
use vstd::prelude::*;

verus! {

/// `std::time::Instant`, a reading of the monotonic clock; opaque here.
#[verifier::external_type_specification]
#[verifier::external_body]
pub struct ExInstant(Instant);

/// `Instant::now`: the current reading of the monotonic clock. Nothing is
/// stated of it.
#[verifier::external_body]
fn instant_now() -> (r: Instant) {
    Instant::now()
}

/// `Instant::elapsed` in nanoseconds (`Duration::as_nanos`): the time since
/// `origin` on the monotonic clock. Nothing is stated of the value.
#[verifier::external_body]
fn nanos_since(origin: &Instant) -> (r: u128) {
    origin.elapsed().as_nanos()
}

/// The answer to one request: whether it is admitted, and how many requests
/// the window holds once it is counted.
#[derive(Debug, Clone, Copy, PartialEq, Eq, Structural)]
pub struct RateLimitStatus {
    pub allowed: bool,
    pub current: u64,
}

/// Nanoseconds in a second.
pub const NANOS_PER_SEC: u128 = 1000000000;

/// The window length in nanoseconds: `window_sec`, at least one second.
pub open spec fn spec_window_nanos(window_sec: u64) -> int {
    if window_sec == 0 {
        NANOS_PER_SEC as int
    } else {
        window_sec * NANOS_PER_SEC
    }
}

/// Whether a request admitted at `t` still counts at `now`: at most one window
/// ago (a time after `now` counts as no time ago).
pub open spec fn spec_in_window(t: u64, now: u64, window_sec: u64) -> bool {
    (if now >= t { now - t } else { 0 }) <= spec_window_nanos(window_sec)
}

/// The admission times of `stamps` that still count at `now`, in order.
pub open spec fn spec_in_window_only(stamps: Seq<u64>, now: u64, window_sec: u64) -> Seq<u64>
    decreases stamps.len(),
{
    if stamps.len() == 0 {
        Seq::empty()
    } else {
        let prefix = spec_in_window_only(stamps.drop_last(), now, window_sec);
        if spec_in_window(stamps.last(), now, window_sec) {
            prefix.push(stamps.last())
        } else {
            prefix
        }
    }
}

/// Whether `r` and the admission times `after` are the outcome of a request
/// at `now` under a key with admission times `stamps`: the times outside the
/// window are forgotten, the request is admitted when fewer than `limit`
/// remain, and it is recorded when admitted.
pub open spec fn spec_admission(
    stamps: Seq<u64>,
    now: u64,
    window_sec: u64,
    limit: u64,
    r: RateLimitStatus,
    after: Seq<u64>,
) -> bool {
    let kept = spec_in_window_only(stamps, now, window_sec);
    &&& r.allowed == (kept.len() < limit)
    &&& r.current == kept.len() + if r.allowed { 1int } else { 0int }
    &&& after == if r.allowed { kept.push(now) } else { kept }
}

/// One key's admission times, in nanoseconds on the limiter's clock.
struct Bucket {
    key: String,
    stamps: Vec<u64>,
}

/// The index of the bucket of `key`, if any.
spec fn spec_bucket_index(buckets: Seq<Bucket>, key: Seq<char>) -> Option<int> {
    if exists|i: int| 0 <= i < buckets.len() && (#[trigger] buckets[i]).key@ == key {
        Some(choose|i: int| 0 <= i < buckets.len() && (#[trigger] buckets[i]).key@ == key)
    } else {
        None
    }
}

/// A rate limiter that keeps every key's admission times in memory, in
/// nanoseconds since the limiter was made, on the monotonic clock.
pub struct InMemoryRateLimiter {
    buckets: Vec<Bucket>,
    origin: Instant,
}

impl InMemoryRateLimiter {
    #[verifier::type_invariant]
    spec fn inv(self) -> bool {
        spec_keys_distinct(self.buckets@)
    }

    /// The admission times recorded under `key` (none for an unseen key).
    pub closed spec fn spec_stamps(&self, key: Seq<char>) -> Seq<u64> {
        spec_stamps_of(self.buckets@, key)
    }

    /// A limiter that has admitted nothing.
    pub fn new() -> (r: InMemoryRateLimiter)
        ensures
            forall|k: Seq<char>| #[trigger] r.spec_stamps(k) == Seq::<u64>::empty(),
    {
        InMemoryRateLimiter { buckets: Vec::new(), origin: instant_now() }
    }

    fn find(&self, key: &str) -> (r: Option<usize>)
        ensures
            match r {
                Some(i) => i < self.buckets@.len() && self.buckets@[i as int].key@ == key@,
                None => forall|j: int| 0 <= j < self.buckets@.len() ==> (#[trigger] self.buckets@[j]).key@ != key@,
            },
    {
        let n = self.buckets.len();
        let mut i: usize = 0;
        while i < n
            invariant
                n == self.buckets@.len(),
                i <= n,
                forall|j: int| 0 <= j < i ==> (#[trigger] self.buckets@[j]).key@ != key@,
            decreases n - i,
        {
            if crate::text::str_eq(self.buckets[i].key.as_str(), key) {
                return Some(i);
            }
            i = i + 1;
        }
        None
    }

    /// Decides one request under `key` arriving now (see [`Self::check`]); the
    /// time is read from the monotonic clock, in nanoseconds since the limiter
    /// was made (the largest `u64` once that no longer fits).
    pub fn check_now(&mut self, key: &str, limit: u64, window_sec: u64) -> (r: RateLimitStatus)
        ensures
            exists|now: u64|
                #[trigger] spec_admission(
                    old(self).spec_stamps(key@),
                    now,
                    window_sec,
                    limit,
                    r,
                    final(self).spec_stamps(key@),
                ),
            forall|k: Seq<char>| k != key@ ==> #[trigger] final(self).spec_stamps(k) == old(self).spec_stamps(k),
            r.allowed ==> r.current <= limit,
    {
        let elapsed = nanos_since(&self.origin);
        let now: u64 = if elapsed > 0xFFFF_FFFF_FFFF_FFFFu128 {
            0xFFFF_FFFF_FFFF_FFFFu64
        } else {
            elapsed as u64
        };
        self.check(key, limit, window_sec, now)
    }

    /// Decides one request under `key` arriving at `now`: forgets the admissions
    /// older than the window (`window_sec`, at least one second), admits the
    /// request when fewer than `limit` remain, and records it when admitted.
    pub fn check(&mut self, key: &str, limit: u64, window_sec: u64, now: u64) -> (r: RateLimitStatus)
        ensures
            spec_admission(
                old(self).spec_stamps(key@),
                now,
                window_sec,
                limit,
                r,
                final(self).spec_stamps(key@),
            ),
            forall|k: Seq<char>| k != key@ ==> #[trigger] final(self).spec_stamps(k) == old(self).spec_stamps(k),
            r.allowed ==> r.current <= limit,
    {
        proof {
            use_type_invariant(&*self);
        }
        let ghost b0 = self.buckets@;
        let found = self.find(key);
        let mut buckets: Vec<Bucket> = Vec::new();
        std::mem::swap(&mut buckets, &mut self.buckets);
        let idx = match found {
            Some(i) => i,
            None => {
                buckets.push(Bucket { key: crate::text::owned(key), stamps: Vec::new() });
                buckets.len() - 1
            },
        };
        let ghost b1 = buckets@;
        proof {
            lemma_index_unique(b1, key@, idx as int);
            assert forall|k: Seq<char>| k != key@ implies #[trigger] spec_stamps_of(b1, k) == spec_stamps_of(b0, k) by {
                lemma_other_key_kept(b0, b1, k, key@);
            }
        }
        let window: u128 = if window_sec == 0 { NANOS_PER_SEC } else { (window_sec as u128) * NANOS_PER_SEC };
        let stamps = &buckets[idx].stamps;
        let n = stamps.len();
        let mut kept: Vec<u64> = Vec::new();
        let mut i: usize = 0;
        while i < n
            invariant
                n == stamps@.len(),
                i <= n,
                window == spec_window_nanos(window_sec),
                kept@ == spec_in_window_only(stamps@.subrange(0, i as int), now, window_sec),
                kept@.len() <= i,
            decreases n - i,
        {
            let t = stamps[i];
            let age: u64 = if now >= t { now - t } else { 0 };
            if (age as u128) <= window {
                kept.push(t);
            }
            proof {
                let pre = stamps@.subrange(0, i + 1);
                assert(pre.drop_last() =~= stamps@.subrange(0, i as int));
            }
            i = i + 1;
        }
        assert(stamps@.subrange(0, n as int) =~= stamps@);
        let current = kept.len() as u64;
        let allowed = current < limit;
        if allowed {
            kept.push(now);
        }
        let bucket_key = buckets[idx].key.clone();
        buckets.set(idx, Bucket { key: bucket_key, stamps: kept });
        proof {
            let b2 = buckets@;
            lemma_index_unique(b2, key@, idx as int);
            assert forall|k: Seq<char>| k != key@ implies #[trigger] spec_stamps_of(b2, k) == spec_stamps_of(b1, k) by {
                lemma_other_key_kept(b1, b2, k, key@);
            }
        }
        self.buckets = buckets;
        RateLimitStatus { allowed, current: if allowed { current + 1 } else { current } }
    }
}

/// The admission times a bucket list records under `key`.
spec fn spec_stamps_of(buckets: Seq<Bucket>, key: Seq<char>) -> Seq<u64> {
    match spec_bucket_index(buckets, key) {
        Some(i) => buckets[i].stamps@,
        None => Seq::empty(),
    }
}

/// Whether the buckets' keys are pairwise distinct.
spec fn spec_keys_distinct(buckets: Seq<Bucket>) -> bool {
    forall|i: int, j: int|
        0 <= i < buckets.len() && 0 <= j < buckets.len() && i != j
            ==> (#[trigger] buckets[i]).key@ != (#[trigger] buckets[j]).key@
}

proof fn lemma_index_unique(buckets: Seq<Bucket>, key: Seq<char>, i: int)
    requires
        spec_keys_distinct(buckets),
        0 <= i < buckets.len(),
        buckets[i].key@ == key,
    ensures
        spec_bucket_index(buckets, key) == Some(i),
{
}

proof fn lemma_other_key_kept(before: Seq<Bucket>, after: Seq<Bucket>, k: Seq<char>, key: Seq<char>)
    requires
        spec_keys_distinct(before),
        spec_keys_distinct(after),
        k != key,
        before.len() <= after.len(),
        forall|j: int| 0 <= j < after.len() && (#[trigger] after[j]).key@ != key ==> j < before.len() && after[j] == before[j],
        forall|j: int| 0 <= j < before.len() && (#[trigger] before[j]).key@ != key ==> after[j] == before[j],
    ensures
        spec_stamps_of(after, k) == spec_stamps_of(before, k),
{
    if exists|j: int| 0 <= j < before.len() && (#[trigger] before[j]).key@ == k {
        let j = choose|j: int| 0 <= j < before.len() && (#[trigger] before[j]).key@ == k;
        lemma_index_unique(before, k, j);
        lemma_index_unique(after, k, j);
    } else {
    }
}

proof fn lemma_in_window_only_idempotent(stamps: Seq<u64>, now: u64, window_sec: u64)
    ensures
        spec_in_window_only(spec_in_window_only(stamps, now, window_sec), now, window_sec)
            == spec_in_window_only(stamps, now, window_sec),
    decreases stamps.len(),
{
    if stamps.len() > 0 {
        let prefix = spec_in_window_only(stamps.drop_last(), now, window_sec);
        lemma_in_window_only_idempotent(stamps.drop_last(), now, window_sec);
        if spec_in_window(stamps.last(), now, window_sec) {
            let pushed = prefix.push(stamps.last());
            assert(pushed.drop_last() =~= prefix);
        }
    }
}

/// Law: the limiter never lets a window hold more than `limit` admissions.
/// If the admissions under a key that still count at `now` are at most
/// `limit`, then after a request at `now` with that limit (the outcome
/// [`InMemoryRateLimiter::check`] states), the admissions recorded under the
/// key all count at `now` and are still at most `limit`.
pub proof fn law_window_within_limit(
    stamps: Seq<u64>,
    limit: u64,
    window_sec: u64,
    now: u64,
    r: RateLimitStatus,
    after: Seq<u64>,
)
    requires
        spec_in_window_only(stamps, now, window_sec).len() <= limit,
        spec_admission(stamps, now, window_sec, limit, r, after),
    ensures
        spec_in_window_only(after, now, window_sec) == after,
        after.len() <= limit,
{
    let kept = spec_in_window_only(stamps, now, window_sec);
    lemma_in_window_only_idempotent(stamps, now, window_sec);
    if r.allowed {
        assert(after.drop_last() =~= kept);
    }
}

/// Whether the request times are in non-decreasing order, as a monotonic
/// clock gives them.
pub open spec fn spec_non_decreasing(times: Seq<u64>) -> bool {
    forall|i: int, j: int| 0 <= i <= j < times.len() ==> times[i] <= times[j]
}

/// The admission times a fresh limiter records under one key after requests
/// at `times`, in order, request `i` made with limit `limits[i]` and all with
/// `window_sec` (what [`InMemoryRateLimiter::check`] does, call after call).
pub open spec fn spec_replay(times: Seq<u64>, limits: Seq<u64>, window_sec: u64) -> Seq<u64>
    decreases times.len(),
{
    if times.len() == 0 {
        Seq::empty()
    } else {
        let n = times.len() - 1;
        let kept = spec_in_window_only(
            spec_replay(times.drop_last(), limits, window_sec),
            times.last(),
            window_sec,
        );
        if kept.len() < limits[n] {
            kept.push(times.last())
        } else {
            kept
        }
    }
}

/// Whether request `i` of the run `times` is admitted.
pub open spec fn spec_admitted(times: Seq<u64>, limits: Seq<u64>, window_sec: u64, i: int) -> bool {
    spec_in_window_only(spec_replay(times.take(i), limits, window_sec), times[i], window_sec).len()
        < limits[i]
}

/// The times of the requests before `n` in the run that were admitted and
/// still count at `now`, in order.
pub open spec fn spec_admitted_in_window(
    times: Seq<u64>,
    limits: Seq<u64>,
    window_sec: u64,
    n: int,
    now: u64,
) -> Seq<u64>
    decreases n,
{
    if n <= 0 {
        Seq::empty()
    } else {
        let prev = spec_admitted_in_window(times, limits, window_sec, n - 1, now);
        if spec_admitted(times, limits, window_sec, n - 1) && spec_in_window(
            times[n - 1],
            now,
            window_sec,
        ) {
            prev.push(times[n - 1])
        } else {
            prev
        }
    }
}

/// Filtering by a later time after an earlier one is filtering by the later one.
proof fn lemma_window_narrows(
    times: Seq<u64>,
    limits: Seq<u64>,
    window_sec: u64,
    n: int,
    t1: u64,
    t2: u64,
)
    requires
        0 <= n <= times.len(),
        forall|j: int| 0 <= j < n ==> #[trigger] times[j] <= t1,
        t1 <= t2,
    ensures
        spec_in_window_only(spec_admitted_in_window(times, limits, window_sec, n, t1), t2, window_sec)
            == spec_admitted_in_window(times, limits, window_sec, n, t2),
    decreases n,
{
    if n > 0 {
        lemma_window_narrows(times, limits, window_sec, n - 1, t1, t2);
        let prev = spec_admitted_in_window(times, limits, window_sec, n - 1, t1);
        let x = times[n - 1];
        assert(x <= t1);
        if spec_admitted(times, limits, window_sec, n - 1) && spec_in_window(x, t1, window_sec) {
            assert(prev.push(x).drop_last() =~= prev);
        }
    }
}

/// What a fresh limiter holds after the first `n` requests of a run, as
/// counted at a time `now` no earlier than the last of them.
proof fn lemma_replay_in_window(
    times: Seq<u64>,
    limits: Seq<u64>,
    window_sec: u64,
    n: int,
    now: u64,
)
    requires
        spec_non_decreasing(times),
        0 <= n <= times.len(),
        n > 0 ==> times[n - 1] <= now,
    ensures
        spec_in_window_only(spec_replay(times.take(n), limits, window_sec), now, window_sec)
            == spec_admitted_in_window(times, limits, window_sec, n, now),
    decreases n,
{
    if n == 0 {
        assert(times.take(0) =~= Seq::<u64>::empty());
    } else {
        let t = times.take(n);
        assert(t.drop_last() =~= times.take(n - 1));
        assert(t.last() == times[n - 1]);
        let x = times[n - 1];
        lemma_replay_in_window(times, limits, window_sec, n - 1, x);
        let kept = spec_in_window_only(
            spec_replay(times.take(n - 1), limits, window_sec),
            x,
            window_sec,
        );
        assert(kept == spec_admitted_in_window(times, limits, window_sec, n - 1, x));
        assert forall|j: int| 0 <= j < n - 1 implies #[trigger] times[j] <= x by {}
        lemma_window_narrows(times, limits, window_sec, n - 1, x, now);
        if kept.len() < limits[n - 1] {
            assert(kept.push(x).drop_last() =~= kept);
        }
    }
}

/// Law: over a run of requests under one key, all with one window, at
/// non-decreasing times and starting from a new limiter, each request is
/// admitted exactly when fewer earlier requests than its own limit were
/// admitted that still count at its time, and its count is that number, plus
/// one when it is admitted; refused requests are never counted. Request `i`
/// may carry any limit `limits[i]`. `spec_replay` of the first `i` requests is
/// what [`InMemoryRateLimiter::new`] followed by `i` calls of
/// [`InMemoryRateLimiter::check`] records, and the call for request `i` takes
/// it to `spec_replay` of the first `i + 1`.
pub proof fn law_admission_counts_earlier_admissions(
    times: Seq<u64>,
    limits: Seq<u64>,
    window_sec: u64,
    i: int,
    r: RateLimitStatus,
    after: Seq<u64>,
)
    requires
        spec_non_decreasing(times),
        limits.len() == times.len(),
        0 <= i < times.len(),
        spec_admission(
            spec_replay(times.take(i), limits, window_sec),
            times[i],
            window_sec,
            limits[i],
            r,
            after,
        ),
    ensures
        r.allowed == (spec_admitted_in_window(times, limits, window_sec, i, times[i]).len()
            < limits[i]),
        r.current == spec_admitted_in_window(times, limits, window_sec, i, times[i]).len() + if r.allowed {
            1int
        } else {
            0int
        },
        r.allowed == spec_admitted(times, limits, window_sec, i),
        after == spec_replay(times.take(i + 1), limits, window_sec),
{
    lemma_replay_in_window(times, limits, window_sec, i, times[i]);
    let t = times.take(i + 1);
    assert(t.drop_last() =~= times.take(i));
    assert(t.last() == times[i]);
}

/// The answer when the count comes from a shared counter (the cache's script):
/// admitted while the count, read as unsigned, is at most `limit`.
pub fn status_from_counter(count: i64, limit: u64) -> (r: RateLimitStatus)
    ensures
        r.current == count as u64,
        r.allowed == (count as u64 <= limit),
{
    let current = count as u64;
    RateLimitStatus { allowed: current <= limit, current }
}

} // verus!
