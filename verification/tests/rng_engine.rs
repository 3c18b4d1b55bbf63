use prng_visualizer::rng::engine::{
    classify_bottleneck, normalize_value, AtomicBounds, Bottleneck, Bounds, PerformanceStats,
    StatsReport, CHANNEL_CAPACITY, DEFAULT_STATE, INITIAL_BATCH_SIZE, MAX_BATCH_SIZE,
    MIN_BATCH_SIZE, TARGET_BATCH_TIME_NANOS,
};
use std::sync::atomic::Ordering;

#[test]
fn normalize_folds_small_values_near_the_minimum() {
    assert_eq!(normalize_value(1, -500, 500), -499);
    assert_eq!(normalize_value(2, -500, 500), -498);
    assert_eq!(normalize_value(3, -500, 500), -497);
    assert_eq!(normalize_value(0, -500, 500), -500);
}

#[test]
fn normalize_takes_the_absolute_value_first() {
    assert_eq!(normalize_value(-1, -500, 500), -499);
    assert_eq!(normalize_value(-1234, -500, 500), -266);
    assert_eq!(normalize_value(1234, -500, 500), -266);
}

#[test]
fn normalize_wraps_at_the_width_of_the_range() {
    assert_eq!(normalize_value(999, -500, 500), 499);
    assert_eq!(normalize_value(1000, -500, 500), -500);
    assert_eq!(normalize_value(1001, -500, 500), -499);
    assert_eq!(normalize_value(7, 10, 13), 11);
}

#[test]
fn normalize_of_an_empty_or_inverted_range_is_the_minimum() {
    assert_eq!(normalize_value(12345, 7, 7), 7);
    assert_eq!(normalize_value(12345, 7, 3), 7);
    assert_eq!(normalize_value(-99, -4, -4), -4);
}

#[test]
fn normalize_handles_the_extremes_of_the_integer_range() {
    assert_eq!(normalize_value(i64::MIN, -500, 500), 308);
    assert_eq!(normalize_value(i64::MAX, -500, 500), 307);
    assert_eq!(normalize_value(5, i64::MIN, i64::MAX), i64::MIN + 5);
    assert_eq!(normalize_value(i64::MIN, i64::MIN, i64::MAX), 0);
    assert_eq!(normalize_value(-1, i64::MAX, i64::MIN), i64::MAX);
}

#[test]
fn normalized_values_stay_inside_the_range() {
    let cases: [(i64, i64); 4] = [(-500, 500), (0, 1), (-3, 40), (1_000_000, 1_000_017)];
    for (min, max) in cases {
        let mut raw: i64 = -5_000;
        while raw <= 5_000 {
            let got = normalize_value(raw, min, max);
            assert!(min <= got && got < max, "{} folded into {}..{} gave {}", raw, min, max, got);
            raw += 37;
        }
    }
}

#[test]
fn constants_of_the_worker() {
    assert_eq!(TARGET_BATCH_TIME_NANOS, 5_000_000);
    assert_eq!(MIN_BATCH_SIZE, 1_000);
    assert_eq!(MAX_BATCH_SIZE, 500_000);
    assert_eq!(INITIAL_BATCH_SIZE, 10_000);
    assert_eq!(CHANNEL_CAPACITY, 4);
    assert_eq!(DEFAULT_STATE, 12345);
}

#[test]
fn standard_bounds_are_five_hundred_either_way() {
    let bounds = Bounds::standard();
    assert_eq!(
        bounds,
        Bounds { min_x: -500, max_x: 500, min_y: -500, max_y: 500, min_z: -500, max_z: 500 }
    );
}

#[test]
fn atomic_bounds_start_at_the_standard_bounds() {
    let shared = AtomicBounds::default();
    assert_eq!(shared.snapshot(), Bounds::standard());
}

#[test]
fn atomic_bounds_set_stores_every_limit() {
    let shared = AtomicBounds::default();
    shared.set(1, 2, 3, 4, 5, 6);
    assert_eq!(shared.min_x.load(Ordering::Relaxed), 1);
    assert_eq!(shared.max_x.load(Ordering::Relaxed), 2);
    assert_eq!(shared.min_y.load(Ordering::Relaxed), 3);
    assert_eq!(shared.max_y.load(Ordering::Relaxed), 4);
    assert_eq!(shared.min_z.load(Ordering::Relaxed), 5);
    assert_eq!(shared.max_z.load(Ordering::Relaxed), 6);
    assert_eq!(
        shared.snapshot(),
        Bounds { min_x: 1, max_x: 2, min_y: 3, max_y: 4, min_z: 5, max_z: 6 }
    );
}

#[test]
fn more_than_a_tenth_dropped_is_upload_bound() {
    assert_eq!(classify_bottleneck(11, 100, 60_000, 5_000_000), Bottleneck::GpuUpload);
    assert_eq!(classify_bottleneck(1, 9, 10_000, 0), Bottleneck::GpuUpload);
    assert_eq!(classify_bottleneck(1, 1, 60_000, 5_000_000), Bottleneck::GpuUpload);
}

#[test]
fn exactly_a_tenth_dropped_is_not_upload_bound() {
    assert_eq!(classify_bottleneck(10, 100, 60_000, 5_000_000), Bottleneck::Balanced);
    assert_eq!(classify_bottleneck(10, 100, 10_000, 5_000_000), Bottleneck::Balanced);
    assert_eq!(classify_bottleneck(10, 100, 10_000, 999_999), Bottleneck::CpuRng);
}

#[test]
fn slow_frames_without_drops_are_render_bound() {
    assert_eq!(classify_bottleneck(0, 100, 29_999, 5_000_000), Bottleneck::GpuRender);
    assert_eq!(classify_bottleneck(0, 0, 0, 0), Bottleneck::GpuRender);
    assert_eq!(classify_bottleneck(0, 100, 30_000, 5_000_000), Bottleneck::Balanced);
}

#[test]
fn slow_frames_with_a_few_drops_fall_through_to_the_call_rate() {
    assert_eq!(classify_bottleneck(1, 100, 10_000, 999_999), Bottleneck::CpuRng);
    assert_eq!(classify_bottleneck(1, 100, 10_000, 1_000_000), Bottleneck::Balanced);
}

#[test]
fn a_low_call_rate_is_cpu_bound() {
    assert_eq!(classify_bottleneck(0, 100, 60_000, 999_999), Bottleneck::CpuRng);
    assert_eq!(classify_bottleneck(0, 100, 60_000, 1_000_000), Bottleneck::Balanced);
}

#[test]
fn classification_survives_the_largest_counters() {
    assert_eq!(classify_bottleneck(u64::MAX, u64::MAX, 0, 0), Bottleneck::GpuUpload);
    assert_eq!(classify_bottleneck(u64::MAX / 10, u64::MAX, 60_000, u64::MAX), Bottleneck::Balanced);
}

#[test]
fn the_default_bottleneck_is_balanced() {
    assert_eq!(Bottleneck::default(), Bottleneck::Balanced);
    assert_eq!(PerformanceStats::default().current_bottleneck(), Bottleneck::Balanced);
}

#[test]
fn update_bottleneck_classifies_the_published_counters() {
    let stats = PerformanceStats::default();
    stats.fps_milli.store(60_000, Ordering::Relaxed);
    stats.rng_calls_per_sec.store(2_000_000, Ordering::Relaxed);
    stats.publish_deliveries(100, 50);
    stats.update_bottleneck();
    assert_eq!(stats.current_bottleneck(), Bottleneck::GpuUpload);

    stats.publish_deliveries(100, 0);
    stats.update_bottleneck();
    assert_eq!(stats.current_bottleneck(), Bottleneck::Balanced);

    stats.fps_milli.store(12_000, Ordering::Relaxed);
    stats.update_bottleneck();
    assert_eq!(stats.current_bottleneck(), Bottleneck::GpuRender);

    stats.fps_milli.store(60_000, Ordering::Relaxed);
    stats.rng_calls_per_sec.store(10, Ordering::Relaxed);
    stats.update_bottleneck();
    assert_eq!(stats.current_bottleneck(), Bottleneck::CpuRng);
}

#[test]
fn publish_stores_the_report_and_reclassifies() {
    let stats = PerformanceStats::default();
    stats.fps_milli.store(144_000, Ordering::Relaxed);
    stats.publish(&StatsReport {
        calls: 3_000_000,
        points: 1_000_000,
        batch_size: 12_000,
        avg_batch_nanos: Some(4_500_000),
    });
    assert_eq!(stats.rng_calls_per_sec.load(Ordering::Relaxed), 3_000_000);
    assert_eq!(stats.points_generated_per_sec.load(Ordering::Relaxed), 1_000_000);
    assert_eq!(stats.current_batch_size.load(Ordering::Relaxed), 12_000);
    assert_eq!(stats.avg_batch_time_nanos.load(Ordering::Relaxed), 4_500_000);
    assert_eq!(stats.current_bottleneck(), Bottleneck::Balanced);

    stats.publish(&StatsReport { calls: 30, points: 10, batch_size: 1_000, avg_batch_nanos: None });
    assert_eq!(stats.avg_batch_time_nanos.load(Ordering::Relaxed), 4_500_000);
    assert_eq!(stats.current_bottleneck(), Bottleneck::CpuRng);
}
