//! The Closed/Open decision state machine gating execution. The breaker is
//! Closed exactly while `circuit_open_time` is `None`; the trip records the
//! time and discards the window, and recovery is unconditional once the open
//! duration elapses.

use vstd::prelude::*;
use crate::circuit_breaker_stats::{
    CircuitBreakerStats, count_points, lemma_count_le_len, percentage, saturate_i32, spec_count_of,
    spec_percentage, spec_sat_i32,
};
use crate::command::Config;
use crate::error::CriusError;
use crate::window::{BucketView, Point, Window, WindowView, spec_add_point, spec_advance,
    spec_points_within, spec_window_wf};

verus! {

/// The mathematical model of a breaker: its window, the time it was opened
/// (if it is open), and its configuration snapshot.
#[verifier::ext_equal]
pub ghost struct CircuitBreakerView {
    pub window: WindowView,
    pub open_time: Option<u64>,
    pub config: Config,
}

/// Well-formedness of a breaker model: its window is well formed and was
/// built from its configuration, and an open breaker holds no samples (the
/// trip discards the window, and results are registered only for calls the
/// breaker allowed).
pub open spec fn spec_breaker_wf(b: CircuitBreakerView) -> bool {
    &&& spec_window_wf(b.window)
    &&& b.window.bucket_ms == b.config.bucket_size_in_ms
    &&& b.window.buckets_nr == b.config.buckets_in_window
    &&& b.window.window_size == b.config.bucket_size_in_ms * b.config.buckets_in_window
    &&& b.open_time is Some ==> b.window.buckets.len() == 0
}

/// The open duration has passed since the breaker tripped at `open_time`.
pub open spec fn spec_timer_elapsed(open_time: u64, config: Config, now: u64) -> bool {
    open_time + config.circuit_open_ms <= now
}

/// The snapshot a closed breaker consults at time `now`: its window
/// advanced one step, restricted to one window span of recency.
pub open spec fn spec_snapshot(b: CircuitBreakerView, now: u64) -> Seq<Point> {
    spec_points_within(
        spec_advance(b.window.buckets, b.window.bucket_ms, b.window.buckets_nr, now),
        b.window.window_size,
        now,
    )
}

/// Both trip thresholds are reached: the failure percentage is at least
/// `error_threshold_percentage` and the failure count is at least
/// `error_threshold`. The percentage and the count are taken from one
/// snapshot, so both thresholds judge the same history.
pub open spec fn spec_trips(points: Seq<Point>, config: Config) -> bool {
    &&& spec_percentage(spec_count_of(points, Point::FAILURE), points.len() as int)
        >= config.error_threshold_percentage
    &&& spec_sat_i32(spec_count_of(points, Point::FAILURE)) >= config.error_threshold
}

/// Whether one `check_command_allowed` call at time `now` allows execution:
/// an open breaker allows exactly when its timer has elapsed; a closed
/// breaker allows exactly when its snapshot does not reach both thresholds.
pub open spec fn spec_check_allowed(b: CircuitBreakerView, now: u64) -> bool {
    match b.open_time {
        Some(t) => spec_timer_elapsed(t, b.config, now),
        None => !spec_trips(spec_snapshot(b, now), b.config),
    }
}

/// The breaker's state after one `check_command_allowed` call at time
/// `now`: an open breaker whose timer elapsed closes; an open breaker
/// otherwise is unchanged; a closed breaker that trips records `now` and
/// discards its window (so the next closed period starts clean), denying
/// this very call; a closed breaker otherwise just carries its advanced
/// window.
pub open spec fn spec_check_post(b: CircuitBreakerView, now: u64) -> CircuitBreakerView {
    match b.open_time {
        Some(t) => if spec_timer_elapsed(t, b.config, now) {
            CircuitBreakerView { open_time: None, ..b }
        } else {
            b
        },
        None => {
            let advanced = spec_advance(
                b.window.buckets,
                b.window.bucket_ms,
                b.window.buckets_nr,
                now,
            );
            if spec_trips(spec_points_within(advanced, b.window.window_size, now), b.config) {
                CircuitBreakerView {
                    open_time: Some(now),
                    window: WindowView { buckets: Seq::empty(), ..b.window },
                    ..b
                }
            } else {
                CircuitBreakerView { window: WindowView { buckets: advanced, ..b.window }, ..b }
            }
        },
    }
}

/// The sample a result registers: its tag and nothing else.
pub open spec fn spec_outcome_point<T, E>(res: Result<T, E>) -> Point {
    if res is Ok {
        Point::SUCCESS
    } else {
        Point::FAILURE
    }
}

/// The breaker's state after registering one outcome with tag `point` at
/// time `now`.
pub open spec fn spec_register_post(b: CircuitBreakerView, now: u64, point: Point) -> CircuitBreakerView {
    CircuitBreakerView {
        window: WindowView {
            buckets: spec_add_point(
                b.window.buckets,
                b.window.bucket_ms,
                b.window.buckets_nr,
                now,
                point,
            ),
            ..b.window
        },
        ..b
    }
}

/// A closed breaker whose observed failures lie below either threshold
/// allows the call and stays closed.
pub proof fn lemma_closed_below_thresholds_allows(b: CircuitBreakerView, now: u64)
    requires
        spec_breaker_wf(b),
        b.open_time is None,
        !spec_trips(spec_snapshot(b, now), b.config),
    ensures
        spec_check_allowed(b, now),
        spec_check_post(b, now).open_time is None,
{
}

/// Once the failure count and the failure percentage reach both thresholds
/// while closed, the next check denies the call and the breaker is open,
/// with the window that caused the trip discarded.
pub proof fn lemma_thresholds_reached_trips(b: CircuitBreakerView, now: u64)
    requires
        spec_breaker_wf(b),
        b.open_time is None,
        spec_trips(spec_snapshot(b, now), b.config),
    ensures
        !spec_check_allowed(b, now),
        spec_check_post(b, now).open_time == Some(now),
        spec_check_post(b, now).window.buckets.len() == 0,
{
}

/// While the breaker is open and the elapsed time since the trip is less
/// than `circuit_open_ms`, every check denies the call and changes nothing.
pub proof fn lemma_open_within_timer_denies(b: CircuitBreakerView, t: u64, now: u64)
    requires
        spec_breaker_wf(b),
        b.open_time == Some(t),
        now < t + b.config.circuit_open_ms,
    ensures
        !spec_check_allowed(b, now),
        spec_check_post(b, now) == b,
{
}

/// Once the elapsed time since the trip reaches `circuit_open_ms`, the next
/// check allows the call and the breaker is closed again, with its
/// success and failure counts reset to empty.
pub proof fn lemma_open_timer_elapsed_closes(b: CircuitBreakerView, t: u64, now: u64)
    requires
        spec_breaker_wf(b),
        b.open_time == Some(t),
        now >= t + b.config.circuit_open_ms,
    ensures
        spec_check_allowed(b, now),
        spec_check_post(b, now).open_time is None,
        spec_count_of(
            spec_points_within(
                spec_check_post(b, now).window.buckets,
                b.window.window_size,
                now,
            ),
            Point::SUCCESS,
        ) == 0,
        spec_count_of(
            spec_points_within(
                spec_check_post(b, now).window.buckets,
                b.window.window_size,
                now,
            ),
            Point::FAILURE,
        ) == 0,
{
    let post = spec_check_post(b, now);
    assert(post.window.buckets =~= b.window.buckets);
    lemma_count_le_len(spec_points_within(post.window.buckets, b.window.window_size, now), Point::SUCCESS);
    lemma_count_le_len(spec_points_within(post.window.buckets, b.window.window_size, now), Point::FAILURE);
}

/// The Closed/Open state machine gating execution.
#[derive(Debug)]
pub struct CircuitBreaker {
    circuit_breaker_stats: CircuitBreakerStats,
    circuit_open_time: Option<u64>,
    pub(crate) config: Config,
}

impl View for CircuitBreaker {
    type V = CircuitBreakerView;

    closed spec fn view(&self) -> CircuitBreakerView {
        CircuitBreakerView {
            window: self.circuit_breaker_stats.window@,
            open_time: self.circuit_open_time,
            config: self.config,
        }
    }
}

impl CircuitBreaker {
    /// The breaker's structural invariant.
    pub open spec fn wf(&self) -> bool {
        spec_breaker_wf(self@)
    }

    /// Attempt to create a circuit breaker from the given configuration.
    /// Fails with `InvalidConfig` exactly when the configured window span,
    /// `bucket_size_in_ms * buckets_in_window`, overflows the millisecond
    /// range; otherwise the breaker starts closed with an empty window.
    pub fn new(config: Config) -> (r: Result<CircuitBreaker, CriusError>)
        ensures
            match r {
                Ok(cb) => {
                    &&& cb.wf()
                    &&& config.bucket_size_in_ms * config.buckets_in_window <= u64::MAX
                    &&& cb@.config == config
                    &&& cb@.open_time is None
                    &&& cb@.window.buckets == Seq::<BucketView>::empty()
                },
                Err(e) => {
                    &&& e == CriusError::InvalidConfig
                    &&& config.bucket_size_in_ms * config.buckets_in_window > u64::MAX
                },
            },
    {
        match Window::new(config) {
            Some(window) => Ok(
                CircuitBreaker {
                    circuit_breaker_stats: CircuitBreakerStats { window },
                    circuit_open_time: None,
                    config,
                },
            ),
            None => Err(CriusError::InvalidConfig),
        }
    }

    /// The milliseconds that have passed on this breaker's clock. The value
    /// comes from the machine's clock, so nothing is promised of it.
    pub fn now_ms(&self) -> u64 {
        self.circuit_breaker_stats.window.now_ms()
    }

    /// The configuration snapshot this breaker was built from.
    pub fn config(&self) -> (c: Config)
        ensures
            c == self@.config,
    {
        self.config
    }

    /// Decide, for one attempted execution at time `now`, whether execution
    /// is allowed, applying the corresponding state transition.
    pub fn check_command_allowed_at(&mut self, now: u64) -> (allowed: bool)
        requires
            old(self).wf(),
        ensures
            final(self).wf(),
            allowed == spec_check_allowed(old(self)@, now),
            final(self)@ == spec_check_post(old(self)@, now),
    {
        if self.should_close_open_circuit(now) {
            self.circuit_open_time = None;
            proof {
                assert(self@ =~~= spec_check_post(old(self)@, now));
            }
            true
        } else if self.should_keep_circuit_open(now) {
            proof {
                assert(self@ =~~= spec_check_post(old(self)@, now));
            }
            false
        } else if self.should_open_circuit(now) {
            self.circuit_open_time = Some(now);
            self.circuit_breaker_stats.clear();
            proof {
                assert(self@ =~~= spec_check_post(old(self)@, now));
            }
            false
        } else {
            proof {
                assert(self@ =~~= spec_check_post(old(self)@, now));
            }
            true
        }
    }

    /// Decide whether execution is allowed at the clock's current time.
    pub fn check_command_allowed(&mut self) -> (allowed: bool)
        requires
            old(self).wf(),
        ensures
            final(self).wf(),
            exists|now: u64|
                allowed == spec_check_allowed(old(self)@, now) && final(self)@ == spec_check_post(
                    old(self)@,
                    now,
                ),
    {
        let now = self.now_ms();
        self.check_command_allowed_at(now)
    }

    /// Record the outcome of an executed call at time `now`. Results are
    /// registered only for calls the breaker allowed, so the breaker is
    /// closed.
    pub fn register_result_at<T, E>(&mut self, now: u64, res: &Result<T, E>)
        requires
            old(self).wf(),
            old(self)@.open_time is None,
        ensures
            final(self).wf(),
            final(self)@ == spec_register_post(old(self)@, now, spec_outcome_point(*res)),
    {
        match res {
            Ok(_) => self.circuit_breaker_stats.add_point_at(now, Point::SUCCESS),
            Err(_) => self.circuit_breaker_stats.add_point_at(now, Point::FAILURE),
        }
        proof {
            assert(self@ =~~= spec_register_post(old(self)@, now, spec_outcome_point(*res)));
        }
    }

    /// Record the outcome of an executed call at the clock's current time.
    pub fn register_result<T, E>(&mut self, res: &Result<T, E>)
        requires
            old(self).wf(),
            old(self)@.open_time is None,
        ensures
            final(self).wf(),
            exists|now: u64|
                final(self)@ == spec_register_post(old(self)@, now, spec_outcome_point(*res)),
    {
        let now = self.now_ms();
        self.register_result_at(now, res);
    }

    /// An open breaker whose timer has elapsed should close.
    fn should_close_open_circuit(&self, now: u64) -> (r: bool)
        ensures
            r == (self@.open_time matches Some(t) && spec_timer_elapsed(t, self@.config, now)),
    {
        if let Some(open_time) = self.circuit_open_time {
            match open_time.checked_add(self.config.circuit_open_ms) {
                Some(deadline) => deadline <= now,
                None => false,
            }
        } else {
            false
        }
    }

    /// An open breaker whose timer has not elapsed should stay open.
    fn should_keep_circuit_open(&self, now: u64) -> (r: bool)
        ensures
            r == (self@.open_time matches Some(t) && !spec_timer_elapsed(t, self@.config, now)),
    {
        if let Some(open_time) = self.circuit_open_time {
            match open_time.checked_add(self.config.circuit_open_ms) {
                Some(deadline) => deadline > now,
                None => true,
            }
        } else {
            false
        }
    }

    /// A closed breaker should trip when its snapshot reaches both failure
    /// thresholds.
    fn should_open_circuit(&mut self, now: u64) -> (r: bool)
        requires
            old(self).wf(),
            old(self)@.open_time is None,
        ensures
            final(self).wf(),
            r == spec_trips(spec_snapshot(old(self)@, now), old(self)@.config),
            final(self)@.open_time == old(self)@.open_time,
            final(self)@.config == old(self)@.config,
            final(self)@.window == (WindowView {
                buckets: spec_advance(
                    old(self)@.window.buckets,
                    old(self)@.window.bucket_ms,
                    old(self)@.window.buckets_nr,
                    now,
                ),
                ..old(self)@.window
            }),
    {
        let points = self.circuit_breaker_stats.window.update_and_get_points_at(now);
        let failures = count_points(&points, Point::FAILURE);
        proof {
            lemma_count_le_len(points@, Point::FAILURE);
        }

        let pct_above_threshold = percentage(failures, points.len())
            >= self.config.error_threshold_percentage;

        let count_above_threshold = saturate_i32(failures) >= self.config.error_threshold;

        proof {
            assert(self@.window =~~= (WindowView {
                buckets: spec_advance(
                    old(self)@.window.buckets,
                    old(self)@.window.bucket_ms,
                    old(self)@.window.buckets_nr,
                    now,
                ),
                ..old(self)@.window
            }));
        }
        pct_above_threshold && count_above_threshold
    }
}

} // verus!
