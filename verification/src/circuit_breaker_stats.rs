//! A derived read view over one window: success/failure counts and
//! percentages over the current snapshot, computed on demand. Every
//! operation first forces a window advance, so time moves forward even on
//! read-only calls.

use vstd::prelude::*;
use crate::window::{Point, Window, spec_add_point, spec_advance, spec_points_within};

verus! {

/// How many samples in `points` carry the tag `tag`.
pub open spec fn spec_count_of(points: Seq<Point>, tag: Point) -> int
    decreases points.len(),
{
    if points.len() == 0 {
        0
    } else {
        spec_count_of(points.drop_last(), tag) + if points.last() == tag {
            1int
        } else {
            0int
        }
    }
}

/// `count` out of `total` as a truncated percentage, `0` when `total == 0`.
/// Computed as `(count * 100) / total`: dividing first would truncate any
/// minority fraction to zero.
pub open spec fn spec_percentage(count: int, total: int) -> int {
    if total == 0 {
        0
    } else {
        count * 100 / total
    }
}

/// A count saturated into the `i32` range.
pub open spec fn spec_sat_i32(count: int) -> int {
    if count <= i32::MAX {
        count
    } else {
        i32::MAX as int
    }
}

/// A tag count never exceeds the number of samples.
pub proof fn lemma_count_le_len(points: Seq<Point>, tag: Point)
    ensures
        0 <= spec_count_of(points, tag) <= points.len(),
    decreases points.len(),
{
    if points.len() > 0 {
        lemma_count_le_len(points.drop_last(), tag);
    }
}

/// Every sample is a success or a failure, so the two counts partition the
/// snapshot.
pub proof fn lemma_counts_partition(points: Seq<Point>)
    ensures
        spec_count_of(points, Point::SUCCESS) + spec_count_of(points, Point::FAILURE)
            == points.len(),
    decreases points.len(),
{
    if points.len() > 0 {
        lemma_counts_partition(points.drop_last());
    }
}

/// The percentage law: over any snapshot, the failure percentage and the
/// success percentage are both `0` when there are no samples; and whenever
/// the success share divides evenly (`(100 * successes) % total == 0`), the
/// two percentages sum to exactly `100`. (With truncating division an uneven
/// split such as one success against two failures sums to `99`.)
pub proof fn lemma_percentages_sum(points: Seq<Point>)
    requires
        points.len() == 0 || (100 * spec_count_of(points, Point::SUCCESS)) % (
        points.len() as int) == 0,
    ensures
        points.len() == 0 ==> spec_percentage(spec_count_of(points, Point::SUCCESS), points.len() as int)
            == 0 && spec_percentage(spec_count_of(points, Point::FAILURE), points.len() as int)
            == 0,
        points.len() > 0 ==> spec_percentage(spec_count_of(points, Point::SUCCESS), points.len() as int)
            + spec_percentage(spec_count_of(points, Point::FAILURE), points.len() as int) == 100,
{
    if points.len() > 0 {
        let t = points.len() as int;
        let s = spec_count_of(points, Point::SUCCESS);
        let f = spec_count_of(points, Point::FAILURE);
        lemma_counts_partition(points);
        lemma_count_le_len(points, Point::SUCCESS);
        let q = 100 * s / t;
        assert(100 * s == t * q) by {
            vstd::arithmetic::div_mod::lemma_fundamental_div_mod(100 * s, t);
        }
        assert(100 * f == t * (100 - q)) by (nonlinear_arith)
            requires
                100 * s == t * q,
                s + f == t,
        ;
        assert(100 * f / t == 100 - q) by {
            vstd::arithmetic::div_mod::lemma_div_multiples_vanish(100 - q, t);
        }
    }
}

/// Count the samples in `points` that carry the tag `tag`.
pub(crate) fn count_points(points: &Vec<Point>, tag: Point) -> (n: usize)
    ensures
        n == spec_count_of(points@, tag),
{
    let mut n: usize = 0;
    let mut i: usize = 0;
    while i < points.len()
        invariant
            i <= points@.len(),
            n <= i,
            n == spec_count_of(points@.take(i as int), tag),
        decreases points@.len() - i,
    {
        if points[i] == tag {
            n += 1;
        }
        proof {
            let pref = points@.take(i + 1int);
            assert(pref.drop_last() =~= points@.take(i as int));
            assert(pref.last() == points@[i as int]);
        }
        i += 1;
    }
    proof {
        assert(points@.take(points@.len() as int) =~= points@);
    }
    n
}

/// A usize count saturated into `i32`.
pub(crate) fn saturate_i32(n: usize) -> (r: i32)
    ensures
        r == spec_sat_i32(n as int),
{
    if n <= i32::MAX as usize {
        n as i32
    } else {
        i32::MAX
    }
}

/// The statistics view over one window.
#[derive(Debug)]
pub struct CircuitBreakerStats {
    pub window: Window,
}

impl CircuitBreakerStats {
    /// Record one outcome at time `now`.
    pub fn add_point_at(&mut self, now: u64, point: Point)
        requires
            old(self).window.wf(),
        ensures
            final(self).window.wf(),
            final(self).window@.buckets == spec_add_point(
                old(self).window@.buckets,
                old(self).window@.bucket_ms,
                old(self).window@.buckets_nr,
                now,
                point,
            ),
            final(self).window@.bucket_ms == old(self).window@.bucket_ms,
            final(self).window@.buckets_nr == old(self).window@.buckets_nr,
            final(self).window@.window_size == old(self).window@.window_size,
    {
        self.window.add_point_at(now, point)
    }

    /// Record one outcome at the clock's current time.
    pub fn add_point(&mut self, point: Point)
        requires
            old(self).window.wf(),
        ensures
            final(self).window.wf(),
            final(self).window@.bucket_ms == old(self).window@.bucket_ms,
            final(self).window@.buckets_nr == old(self).window@.buckets_nr,
            final(self).window@.window_size == old(self).window@.window_size,
            exists|now: u64|
                final(self).window@.buckets == spec_add_point(
                    old(self).window@.buckets,
                    old(self).window@.bucket_ms,
                    old(self).window@.buckets_nr,
                    now,
                    point,
                ),
    {
        self.window.add_point(point)
    }

    /// Discard all recorded outcomes.
    pub fn clear(&mut self)
        requires
            old(self).window.wf(),
        ensures
            final(self).window.wf(),
            final(self).window@.buckets == Seq::<crate::window::BucketView>::empty(),
            final(self).window@.bucket_ms == old(self).window@.bucket_ms,
            final(self).window@.buckets_nr == old(self).window@.buckets_nr,
            final(self).window@.window_size == old(self).window@.window_size,
    {
        self.window.clear_window()
    }

    /// The percentage of successes over the snapshot at time `now`, as
    /// `(successes * 100) / total`, `0` for an empty snapshot.
    pub fn success_percentage_at(&mut self, now: u64) -> (pct: i32)
        requires
            old(self).window.wf(),
        ensures
            final(self).window.wf(),
            final(self).window@.buckets == spec_advance(
                old(self).window@.buckets,
                old(self).window@.bucket_ms,
                old(self).window@.buckets_nr,
                now,
            ),
            final(self).window@.bucket_ms == old(self).window@.bucket_ms,
            final(self).window@.buckets_nr == old(self).window@.buckets_nr,
            final(self).window@.window_size == old(self).window@.window_size,
            ({
                let pts = spec_points_within(
                    final(self).window@.buckets,
                    final(self).window@.window_size,
                    now,
                );
                pct == spec_percentage(spec_count_of(pts, Point::SUCCESS), pts.len() as int)
            }),
            0 <= pct <= 100,
    {
        let points = self.window.update_and_get_points_at(now);
        let successes = count_points(&points, Point::SUCCESS);
        proof {
            lemma_count_le_len(points@, Point::SUCCESS);
        }
        percentage(successes, points.len())
    }

    /// The percentage of failures over the snapshot at time `now`, as
    /// `(failures * 100) / total`, `0` for an empty snapshot.
    pub fn error_percentage_at(&mut self, now: u64) -> (pct: i32)
        requires
            old(self).window.wf(),
        ensures
            final(self).window.wf(),
            final(self).window@.buckets == spec_advance(
                old(self).window@.buckets,
                old(self).window@.bucket_ms,
                old(self).window@.buckets_nr,
                now,
            ),
            final(self).window@.bucket_ms == old(self).window@.bucket_ms,
            final(self).window@.buckets_nr == old(self).window@.buckets_nr,
            final(self).window@.window_size == old(self).window@.window_size,
            ({
                let pts = spec_points_within(
                    final(self).window@.buckets,
                    final(self).window@.window_size,
                    now,
                );
                pct == spec_percentage(spec_count_of(pts, Point::FAILURE), pts.len() as int)
            }),
            0 <= pct <= 100,
    {
        let points = self.window.update_and_get_points_at(now);
        let failures = count_points(&points, Point::FAILURE);
        proof {
            lemma_count_le_len(points@, Point::FAILURE);
        }
        percentage(failures, points.len())
    }

    /// The number of successes over the snapshot at time `now`, saturated
    /// into `i32`.
    pub fn success_nr_at(&mut self, now: u64) -> (n: i32)
        requires
            old(self).window.wf(),
        ensures
            final(self).window.wf(),
            final(self).window@.buckets == spec_advance(
                old(self).window@.buckets,
                old(self).window@.bucket_ms,
                old(self).window@.buckets_nr,
                now,
            ),
            final(self).window@.bucket_ms == old(self).window@.bucket_ms,
            final(self).window@.buckets_nr == old(self).window@.buckets_nr,
            final(self).window@.window_size == old(self).window@.window_size,
            n == spec_sat_i32(
                spec_count_of(
                    spec_points_within(
                        final(self).window@.buckets,
                        final(self).window@.window_size,
                        now,
                    ),
                    Point::SUCCESS,
                ),
            ),
    {
        let points = self.window.update_and_get_points_at(now);
        saturate_i32(count_points(&points, Point::SUCCESS))
    }

    /// The number of failures over the snapshot at time `now`, saturated
    /// into `i32`.
    pub fn error_nr_at(&mut self, now: u64) -> (n: i32)
        requires
            old(self).window.wf(),
        ensures
            final(self).window.wf(),
            final(self).window@.buckets == spec_advance(
                old(self).window@.buckets,
                old(self).window@.bucket_ms,
                old(self).window@.buckets_nr,
                now,
            ),
            final(self).window@.bucket_ms == old(self).window@.bucket_ms,
            final(self).window@.buckets_nr == old(self).window@.buckets_nr,
            final(self).window@.window_size == old(self).window@.window_size,
            n == spec_sat_i32(
                spec_count_of(
                    spec_points_within(
                        final(self).window@.buckets,
                        final(self).window@.window_size,
                        now,
                    ),
                    Point::FAILURE,
                ),
            ),
    {
        let points = self.window.update_and_get_points_at(now);
        saturate_i32(count_points(&points, Point::FAILURE))
    }

    /// The percentage of successes over the current snapshot.
    pub fn success_percentage(&mut self) -> (pct: i32)
        requires
            old(self).window.wf(),
        ensures
            final(self).window.wf(),
            final(self).window@.bucket_ms == old(self).window@.bucket_ms,
            final(self).window@.buckets_nr == old(self).window@.buckets_nr,
            final(self).window@.window_size == old(self).window@.window_size,
            0 <= pct <= 100,
            exists|now: u64|
                final(self).window@.buckets == spec_advance(
                    old(self).window@.buckets,
                    old(self).window@.bucket_ms,
                    old(self).window@.buckets_nr,
                    now,
                ) && ({
                    let pts = spec_points_within(
                        final(self).window@.buckets,
                        final(self).window@.window_size,
                        now,
                    );
                    pct == spec_percentage(spec_count_of(pts, Point::SUCCESS), pts.len() as int)
                }),
    {
        let now = self.window.now_ms();
        self.success_percentage_at(now)
    }

    /// The percentage of failures over the current snapshot.
    pub fn error_percentage(&mut self) -> (pct: i32)
        requires
            old(self).window.wf(),
        ensures
            final(self).window.wf(),
            final(self).window@.bucket_ms == old(self).window@.bucket_ms,
            final(self).window@.buckets_nr == old(self).window@.buckets_nr,
            final(self).window@.window_size == old(self).window@.window_size,
            0 <= pct <= 100,
            exists|now: u64|
                final(self).window@.buckets == spec_advance(
                    old(self).window@.buckets,
                    old(self).window@.bucket_ms,
                    old(self).window@.buckets_nr,
                    now,
                ) && ({
                    let pts = spec_points_within(
                        final(self).window@.buckets,
                        final(self).window@.window_size,
                        now,
                    );
                    pct == spec_percentage(spec_count_of(pts, Point::FAILURE), pts.len() as int)
                }),
    {
        let now = self.window.now_ms();
        self.error_percentage_at(now)
    }

    /// The number of successes over the current snapshot.
    pub fn success_nr(&mut self) -> (n: i32)
        requires
            old(self).window.wf(),
        ensures
            final(self).window.wf(),
            final(self).window@.bucket_ms == old(self).window@.bucket_ms,
            final(self).window@.buckets_nr == old(self).window@.buckets_nr,
            final(self).window@.window_size == old(self).window@.window_size,
            exists|now: u64|
                final(self).window@.buckets == spec_advance(
                    old(self).window@.buckets,
                    old(self).window@.bucket_ms,
                    old(self).window@.buckets_nr,
                    now,
                ) && n == spec_sat_i32(
                    spec_count_of(
                        spec_points_within(
                            final(self).window@.buckets,
                            final(self).window@.window_size,
                            now,
                        ),
                        Point::SUCCESS,
                    ),
                ),
    {
        let now = self.window.now_ms();
        self.success_nr_at(now)
    }

    /// The number of failures over the current snapshot.
    pub fn error_nr(&mut self) -> (n: i32)
        requires
            old(self).window.wf(),
        ensures
            final(self).window.wf(),
            final(self).window@.bucket_ms == old(self).window@.bucket_ms,
            final(self).window@.buckets_nr == old(self).window@.buckets_nr,
            final(self).window@.window_size == old(self).window@.window_size,
            exists|now: u64|
                final(self).window@.buckets == spec_advance(
                    old(self).window@.buckets,
                    old(self).window@.bucket_ms,
                    old(self).window@.buckets_nr,
                    now,
                ) && n == spec_sat_i32(
                    spec_count_of(
                        spec_points_within(
                            final(self).window@.buckets,
                            final(self).window@.window_size,
                            now,
                        ),
                        Point::FAILURE,
                    ),
                ),
    {
        let now = self.window.now_ms();
        self.error_nr_at(now)
    }
}

/// `(count * 100) / total` without intermediate overflow, `0` when `total`
/// is `0`; the result of a count out of a total never exceeds `100`.
pub(crate) fn percentage(count: usize, total: usize) -> (pct: i32)
    requires
        count <= total,
    ensures
        pct == spec_percentage(count as int, total as int),
        0 <= pct <= 100,
{
    if total == 0 {
        0
    } else {
        let p = (count as u128) * 100 / (total as u128);
        proof {
            assert(count * 100 / (total as int) <= 100) by (nonlinear_arith)
                requires
                    0 < total <= u128::MAX,
                    0 <= count <= total,
            ;
        }
        p as i32
    }
}

} // verus!
