//! The rolling time window: a bounded, time-ordered sequence of sample
//! buckets. Time is measured in whole milliseconds from a clock anchor taken
//! when the window is created; every operation that depends on the clock has
//! an `_at` form that takes the current time explicitly, and a convenience
//! form that samples the clock itself.

use vstd::prelude::*;
use std::collections::vec_deque::VecDeque;
use std::time::Instant;
use crate::command::Config;

verus! {

/// One recorded operation outcome.
#[derive(PartialEq, Eq, Hash, Copy, Clone, Debug, Structural)]
pub enum Point {
    SUCCESS,
    FAILURE,
}

/// `std::time::Instant` is the opaque anchor from which the window measures
/// time. Nothing about its contents is assumed.
#[verifier::external_type_specification]
#[verifier::external_body]
pub struct ExInstant(Instant);

/// Relies on `std::time::Instant::now` to obtain a clock anchor. The result
/// is opaque; nothing is assumed of it.
#[verifier::external_body]
fn instant_now() -> Instant {
    Instant::now()
}

/// Relies on `std::time::Instant::elapsed` for the number of milliseconds
/// that have passed since `origin`, saturated into `u64`. The result depends
/// on the machine's clock, so nothing is promised of it: all window logic is
/// verified for every value it could take.
#[verifier::external_body]
fn millis_since(origin: &Instant) -> u64 {
    u64::try_from(origin.elapsed().as_millis()).unwrap_or(u64::MAX)
}

/// An append-only collection of samples recorded during one fixed-length
/// time slice, stamped with the slice's start, in milliseconds from the
/// window's clock anchor.
#[derive(Debug)]
struct Bucket {
    points: Vec<Point>,
    timestamp: u64,
}

/// The mathematical model of one bucket.
#[verifier::ext_equal]
pub ghost struct BucketView {
    pub timestamp: int,
    pub points: Seq<Point>,
}

impl View for Bucket {
    type V = BucketView;

    closed spec fn view(&self) -> BucketView {
        BucketView { timestamp: self.timestamp as int, points: self.points@ }
    }
}

impl Bucket {
    /// A fresh, empty bucket stamped at `now`.
    fn new(now: u64) -> (b: Bucket)
        ensures
            b@ == (BucketView { timestamp: now as int, points: Seq::<Point>::empty() }),
    {
        Bucket { points: Vec::new(), timestamp: now }
    }
}

/// The mathematical model of a window: the bucket sequence, oldest first,
/// and the configuration the window was built from.
#[verifier::ext_equal]
pub ghost struct WindowView {
    pub buckets: Seq<BucketView>,
    pub bucket_ms: u64,
    pub buckets_nr: u32,
    pub window_size: u64,
}

/// One step of advancing the bucket sequence to time `now`: create the first
/// bucket stamped at `now`, keep the newest bucket while its interval has
/// not elapsed, or append exactly one bucket stamped at the previous
/// boundary (so boundaries stay an exact arithmetic progression), evicting
/// the oldest bucket when the sequence would exceed `buckets_nr`. At most
/// one bucket is appended per step: a larger gap is caught up incrementally
/// across subsequent calls.
pub open spec fn spec_advance(bs: Seq<BucketView>, bucket_ms: u64, buckets_nr: u32, now: u64) -> Seq<
    BucketView,
> {
    if bs.len() == 0 {
        seq![BucketView { timestamp: now as int, points: Seq::empty() }]
    } else if bs.last().timestamp + bucket_ms > now {
        bs
    } else {
        let pushed = bs.push(
            BucketView { timestamp: bs.last().timestamp + bucket_ms, points: Seq::empty() },
        );
        if pushed.len() > buckets_nr {
            pushed.subrange(1, pushed.len() as int)
        } else {
            pushed
        }
    }
}

/// Advancing to `now` and then appending `point` to the newest bucket.
pub open spec fn spec_add_point(
    bs: Seq<BucketView>,
    bucket_ms: u64,
    buckets_nr: u32,
    now: u64,
    point: Point,
) -> Seq<BucketView> {
    let adv = spec_advance(bs, bucket_ms, buckets_nr, now);
    adv.update(
        adv.len() - 1,
        BucketView { timestamp: adv.last().timestamp, points: adv.last().points.push(point) },
    )
}

/// The snapshot: the samples of every bucket that lies within one window
/// span of `now`, oldest bucket first. A bucket whose timestamp is more than
/// `window_size` behind `now` is logically stale and contributes nothing,
/// even if it has not yet been evicted by count.
pub open spec fn spec_points_within(bs: Seq<BucketView>, window_size: u64, now: u64) -> Seq<Point>
    decreases bs.len(),
{
    if bs.len() == 0 {
        Seq::empty()
    } else if bs.last().timestamp + window_size > now {
        spec_points_within(bs.drop_last(), window_size, now) + bs.last().points
    } else {
        spec_points_within(bs.drop_last(), window_size, now)
    }
}

/// The buckets of `bs` that lie within one window span of `now`, in order.
pub open spec fn spec_retained(bs: Seq<BucketView>, window_size: u64, now: u64) -> Seq<BucketView>
    decreases bs.len(),
{
    if bs.len() == 0 {
        Seq::empty()
    } else if bs.last().timestamp + window_size > now {
        spec_retained(bs.drop_last(), window_size, now).push(bs.last())
    } else {
        spec_retained(bs.drop_last(), window_size, now)
    }
}

/// All samples of a bucket sequence, oldest bucket first.
pub open spec fn spec_all_points(bs: Seq<BucketView>) -> Seq<Point>
    decreases bs.len(),
{
    if bs.len() == 0 {
        Seq::empty()
    } else {
        spec_all_points(bs.drop_last()) + bs.last().points
    }
}

/// Well-formedness of a window model: the bucket sequence never exceeds its
/// capacity (one bucket is always admitted, so samples always have somewhere
/// to go), successive timestamps differ by exactly `bucket_ms`, and
/// `window_size` is the exact span the window was built for.
pub open spec fn spec_window_wf(w: WindowView) -> bool {
    &&& w.buckets.len() <= w.buckets_nr || w.buckets.len() <= 1
    &&& forall|i: int|
        0 <= i && i + 1 < w.buckets.len() ==> (#[trigger] w.buckets[i + 1]).timestamp == w.buckets[
            i
        ].timestamp + w.bucket_ms
    &&& w.window_size == w.bucket_ms * w.buckets_nr
}

/// The window eviction law: a bucket whose slice lies wholly more than one
/// window span behind `now` contributes no samples to the snapshot, which
/// holds exactly the samples of the buckets retained by recency, in order.
pub proof fn lemma_snapshot_is_retained_points(bs: Seq<BucketView>, window_size: u64, now: u64)
    ensures
        spec_points_within(bs, window_size, now) == spec_all_points(
            spec_retained(bs, window_size, now),
        ),
    decreases bs.len(),
{
    if bs.len() == 0 {
    } else {
        lemma_snapshot_is_retained_points(bs.drop_last(), window_size, now);
        if bs.last().timestamp + window_size > now {
            let r = spec_retained(bs.drop_last(), window_size, now).push(bs.last());
            assert(r.drop_last() =~= spec_retained(bs.drop_last(), window_size, now));
        }
    }
}

/// An ordered sequence of sample buckets, capacity `buckets_in_window`,
/// advanced lazily as time passes.
#[derive(Debug)]
pub struct Window {
    /// Queue structure holding the window's buckets
    buckets: VecDeque<Bucket>,
    /// Period during which a single bucket is valid, in milliseconds
    bucket_ms: u64,
    /// Maximum number of buckets in a window
    buckets_nr: u32,
    /// Total size of all buckets in a window, in milliseconds
    window_size: u64,
    /// Clock anchor from which all timestamps are measured
    origin: Instant,
}

impl View for Window {
    type V = WindowView;

    closed spec fn view(&self) -> WindowView {
        WindowView {
            buckets: self.buckets@.map_values(|b: Bucket| b@),
            bucket_ms: self.bucket_ms,
            buckets_nr: self.buckets_nr,
            window_size: self.window_size,
        }
    }
}

impl Window {
    /// The window's structural invariant.
    pub open spec fn wf(&self) -> bool {
        spec_window_wf(self@)
    }

    /// Attempt to create a window from a given configuration. Returns `None`
    /// exactly when the total window span, `bucket_size_in_ms *
    /// buckets_in_window`, overflows the millisecond range; otherwise the
    /// window starts with no buckets.
    pub fn new(config: Config) -> (r: Option<Window>)
        ensures
            match r {
                Some(w) => {
                    &&& w.wf()
                    &&& config.bucket_size_in_ms * config.buckets_in_window <= u64::MAX
                    &&& w@.buckets == Seq::<BucketView>::empty()
                    &&& w@.bucket_ms == config.bucket_size_in_ms
                    &&& w@.buckets_nr == config.buckets_in_window
                    &&& w@.window_size == config.bucket_size_in_ms * config.buckets_in_window
                },
                None => config.bucket_size_in_ms * config.buckets_in_window > u64::MAX,
            },
    {
        let window_size = config.bucket_size_in_ms.checked_mul(config.buckets_in_window as u64);
        match window_size {
            Some(window_size) => {
                let w = Window {
                    buckets: VecDeque::new(),
                    bucket_ms: config.bucket_size_in_ms,
                    buckets_nr: config.buckets_in_window,
                    window_size,
                    origin: instant_now(),
                };
                proof {
                    assert(w@.buckets =~= Seq::<BucketView>::empty());
                }
                Some(w)
            },
            None => None,
        }
    }

    /// The milliseconds that have passed on this window's clock. The value
    /// comes from the machine's clock, so nothing is promised of it.
    pub fn now_ms(&self) -> u64 {
        millis_since(&self.origin)
    }

    /// Advance the bucket sequence one step toward `now`.
    fn update_window(&mut self, now: u64)
        requires
            old(self).wf(),
        ensures
            final(self).wf(),
            final(self)@.buckets == spec_advance(
                old(self)@.buckets,
                old(self)@.bucket_ms,
                old(self)@.buckets_nr,
                now,
            ),
            final(self)@.bucket_ms == old(self)@.bucket_ms,
            final(self)@.buckets_nr == old(self)@.buckets_nr,
            final(self)@.window_size == old(self)@.window_size,
            final(self)@.buckets.len() >= 1,
    {
        let n = self.buckets.len();
        if n == 0 {
            // Create a bucket if there aren't any in the window currently;
            // it establishes the phase origin for all future boundaries.
            let first_bucket = Bucket::new(now);
            self.buckets.push_back(first_bucket);
            proof {
                assert(self@.buckets =~~= spec_advance(
                    old(self)@.buckets,
                    old(self)@.bucket_ms,
                    old(self)@.buckets_nr,
                    now,
                ));
            }
        } else {
            let latest_ts = self.buckets[n - 1].timestamp;
            // The newest bucket stops being current once `now` reaches its
            // end boundary; an end boundary beyond the clock's range can
            // never be reached.
            if let Some(threshold) = latest_ts.checked_add(self.bucket_ms) {
                if threshold <= now {
                    let new_bucket = Bucket { points: Vec::new(), timestamp: threshold };
                    self.buckets.push_back(new_bucket);
                    if self.buckets.len() > self.buckets_nr as usize {
                        let _ = self.buckets.pop_front();
                    }
                    proof {
                        assert(self@.buckets =~~= spec_advance(
                            old(self)@.buckets,
                            old(self)@.bucket_ms,
                            old(self)@.buckets_nr,
                            now,
                        ));
                    }
                }
            }
        }
    }

    /// Advance to `now`, then append `point` to the current bucket.
    pub fn add_point_at(&mut self, now: u64, point: Point)
        requires
            old(self).wf(),
        ensures
            final(self).wf(),
            final(self)@.buckets == spec_add_point(
                old(self)@.buckets,
                old(self)@.bucket_ms,
                old(self)@.buckets_nr,
                now,
                point,
            ),
            final(self)@.bucket_ms == old(self)@.bucket_ms,
            final(self)@.buckets_nr == old(self)@.buckets_nr,
            final(self)@.window_size == old(self)@.window_size,
    {
        self.update_window(now);
        if let Some(mut current_bucket) = self.buckets.pop_back() {
            current_bucket.points.push(point);
            self.buckets.push_back(current_bucket);
            proof {
                assert(self@.buckets =~~= spec_add_point(
                    old(self)@.buckets,
                    old(self)@.bucket_ms,
                    old(self)@.buckets_nr,
                    now,
                    point,
                ));
            }
        }
    }

    /// Append `point` to the current bucket at the clock's current time.
    pub fn add_point(&mut self, point: Point)
        requires
            old(self).wf(),
        ensures
            final(self).wf(),
            final(self)@.bucket_ms == old(self)@.bucket_ms,
            final(self)@.buckets_nr == old(self)@.buckets_nr,
            final(self)@.window_size == old(self)@.window_size,
            exists|now: u64|
                final(self)@.buckets == spec_add_point(
                    old(self)@.buckets,
                    old(self)@.bucket_ms,
                    old(self)@.buckets_nr,
                    now,
                    point,
                ),
    {
        let now = millis_since(&self.origin);
        self.add_point_at(now, point);
    }

    /// Discard all buckets immediately.
    pub fn clear_window(&mut self)
        requires
            old(self).wf(),
        ensures
            final(self).wf(),
            final(self)@.buckets == Seq::<BucketView>::empty(),
            final(self)@.bucket_ms == old(self)@.bucket_ms,
            final(self)@.buckets_nr == old(self)@.buckets_nr,
            final(self)@.window_size == old(self)@.window_size,
    {
        self.buckets.clear();
        proof {
            assert(self@.buckets =~= Seq::<BucketView>::empty());
        }
    }

    /// Advance to `now`, then return the samples of all currently valid
    /// buckets, oldest first.
    pub fn update_and_get_points_at(&mut self, now: u64) -> (points: Vec<Point>)
        requires
            old(self).wf(),
        ensures
            final(self).wf(),
            final(self)@.buckets == spec_advance(
                old(self)@.buckets,
                old(self)@.bucket_ms,
                old(self)@.buckets_nr,
                now,
            ),
            final(self)@.bucket_ms == old(self)@.bucket_ms,
            final(self)@.buckets_nr == old(self)@.buckets_nr,
            final(self)@.window_size == old(self)@.window_size,
            points@ == spec_points_within(final(self)@.buckets, final(self)@.window_size, now),
    {
        self.update_window(now);
        let mut points: Vec<Point> = Vec::new();
        let n = self.buckets.len();
        let mut i: usize = 0;
        while i < n
            invariant
                n == self.buckets@.len(),
                i <= n,
                self.wf(),
                points@ == spec_points_within(self@.buckets.take(i as int), self@.window_size, now),
            decreases n - i,
        {
            let keep = match self.buckets[i].timestamp.checked_add(self.window_size) {
                Some(end) => end > now,
                None => true,
            };
            if keep {
                let m = self.buckets[i].points.len();
                let ghost points_before = points@;
                let mut j: usize = 0;
                while j < m
                    invariant
                        m == self.buckets@[i as int].points@.len(),
                        i < self.buckets@.len(),
                        j <= m,
                        points@ == points_before + self.buckets@[i as int].points@.take(j as int),
                    decreases m - j,
                {
                    points.push(self.buckets[i].points[j]);
                    proof {
                        assert(self.buckets@[i as int].points@.take(j + 1int)
                            =~= self.buckets@[i as int].points@.take(j as int).push(
                            self.buckets@[i as int].points@[j as int],
                        ));
                    }
                    j += 1;
                }
                proof {
                    assert(self.buckets@[i as int].points@.take(m as int) =~= self.buckets@[
                        i as int
                    ].points@);
                }
            }
            proof {
                let pref = self@.buckets.take(i + 1int);
                assert(pref.drop_last() =~= self@.buckets.take(i as int));
                assert(pref.last() == self@.buckets[i as int]);
            }
            i += 1;
        }
        proof {
            assert(self@.buckets.take(n as int) =~= self@.buckets);
        }
        points
    }

    /// Return the samples of all currently valid buckets at the clock's
    /// current time.
    pub fn update_and_get_points(&mut self) -> (points: Vec<Point>)
        requires
            old(self).wf(),
        ensures
            final(self).wf(),
            final(self)@.bucket_ms == old(self)@.bucket_ms,
            final(self)@.buckets_nr == old(self)@.buckets_nr,
            final(self)@.window_size == old(self)@.window_size,
            exists|now: u64|
                final(self)@.buckets == spec_advance(
                    old(self)@.buckets,
                    old(self)@.bucket_ms,
                    old(self)@.buckets_nr,
                    now,
                ) && points@ == spec_points_within(
                    final(self)@.buckets,
                    final(self)@.window_size,
                    now,
                ),
    {
        let now = millis_since(&self.origin);
        self.update_and_get_points_at(now)
    }
}

} // verus!
