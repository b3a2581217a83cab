//! Deterministic tests of the window and the derived statistics, driving
//! the clock explicitly through the `_at` entry points.

use crius::circuit_breaker_stats::CircuitBreakerStats;
use crius::command::Config;
use crius::window::{Point, Window};

fn small_window_config(buckets_in_window: u32, bucket_size_in_ms: u64) -> Config {
    *Config::new()
        .buckets_in_window(buckets_in_window)
        .bucket_size_in_ms(bucket_size_in_ms)
}

fn stats(config: Config) -> CircuitBreakerStats {
    CircuitBreakerStats { window: Window::new(config).unwrap() }
}

#[test]
fn empty_stats_are_all_zero() {
    let mut s = stats(Config::default());
    assert_eq!(0, s.success_nr_at(0));
    assert_eq!(0, s.error_nr_at(0));
    assert_eq!(0, s.success_percentage_at(0));
    assert_eq!(0, s.error_percentage_at(0));
}

#[test]
fn counts_follow_recorded_outcomes() {
    let mut s = stats(Config::default());
    s.add_point_at(0, Point::SUCCESS);
    s.add_point_at(0, Point::FAILURE);
    s.add_point_at(0, Point::FAILURE);

    assert_eq!(1, s.success_nr_at(1));
    assert_eq!(2, s.error_nr_at(1));
}

#[test]
fn even_split_percentages_sum_to_hundred() {
    let mut s = stats(Config::default());
    s.add_point_at(0, Point::SUCCESS);
    s.add_point_at(0, Point::FAILURE);

    assert_eq!(50, s.success_percentage_at(1));
    assert_eq!(50, s.error_percentage_at(1));
}

#[test]
fn minority_fraction_is_not_truncated_to_zero() {
    let mut s = stats(Config::default());
    s.add_point_at(0, Point::SUCCESS);
    s.add_point_at(0, Point::FAILURE);
    s.add_point_at(0, Point::FAILURE);

    // (1 * 100) / 3 and (2 * 100) / 3: an uneven split truncates, so the
    // two percentages sum to 99 here, never to 0.
    assert_eq!(33, s.success_percentage_at(1));
    assert_eq!(66, s.error_percentage_at(1));
}

#[test]
fn clear_discards_all_outcomes() {
    let mut s = stats(Config::default());
    s.add_point_at(0, Point::FAILURE);
    s.add_point_at(0, Point::FAILURE);
    s.clear();

    assert_eq!(0, s.error_nr_at(1));
    assert_eq!(0, s.error_percentage_at(1));
}

#[test]
fn old_buckets_are_evicted_by_count() {
    // Two buckets of 100 ms each.
    let mut w = Window::new(small_window_config(2, 100)).unwrap();
    w.add_point_at(0, Point::FAILURE);

    // Still within the first bucket: the sample is visible.
    assert_eq!(1, w.update_and_get_points_at(99).len());

    // One advance appends the second bucket; the first is still retained.
    assert_eq!(1, w.update_and_get_points_at(100).len());

    // The next advance exceeds the capacity and evicts the oldest bucket,
    // taking the sample with it.
    assert_eq!(0, w.update_and_get_points_at(200).len());
}

#[test]
fn stale_buckets_are_filtered_by_recency() {
    // Ten buckets of 100 ms each: the window spans 1000 ms. A bucket is
    // caught up one step per call, so the sample's bucket can outlive the
    // span while still retained by count.
    let mut w = Window::new(small_window_config(10, 100)).unwrap();
    w.add_point_at(0, Point::FAILURE);

    // Within one window span of the sample's bucket: visible.
    assert_eq!(1, w.update_and_get_points_at(999).len());

    // Beyond the span the bucket is logically stale, even though it has not
    // yet been evicted by count.
    assert_eq!(0, w.update_and_get_points_at(1001).len());
}

#[test]
fn samples_accumulate_across_buckets() {
    let mut w = Window::new(small_window_config(10, 100)).unwrap();
    w.add_point_at(0, Point::SUCCESS);
    w.add_point_at(150, Point::FAILURE);
    w.add_point_at(250, Point::FAILURE);

    let points = w.update_and_get_points_at(300);
    assert_eq!(vec![Point::SUCCESS, Point::FAILURE, Point::FAILURE], points);
}

#[test]
fn window_new_rejects_overflowing_span() {
    assert!(Window::new(small_window_config(2, u64::MAX)).is_none());
    assert!(Window::new(small_window_config(1, u64::MAX)).is_some());
    assert!(Window::new(small_window_config(0, 0)).is_some());
}

#[test]
fn clock_sampled_stats_follow_outcomes() {
    let mut s = stats(Config::default());
    s.add_point(Point::SUCCESS);
    s.add_point(Point::FAILURE);

    assert_eq!(1, s.success_nr());
    assert_eq!(1, s.error_nr());
    assert_eq!(50, s.success_percentage());
    assert_eq!(50, s.error_percentage());
}
