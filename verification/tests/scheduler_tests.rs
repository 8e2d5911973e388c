use sysmon_core::adaptive_refresh::AdaptiveScheduler;

#[test]
fn suggested_interval_stays_within_bounds() {
    let volatilities: [u64; 5] = [0, 1, 500, 1000, 5000];
    let latencies: [u64; 5] = [0, 100, 5_000, 1_000_000, u64::MAX];
    for &v in volatilities.iter() {
        for &l in latencies.iter() {
            let mut s = AdaptiveScheduler::new(500, 5_000, 1_000);
            s.record(v, l);
            s.record(v, l);
            s.record(v, l);
            let interval = s.suggested_interval();
            assert!(interval >= 500);
            assert!(interval <= 5_000);
        }
    }
}

#[test]
fn fresh_scheduler_suggests_upper_bound() {
    let s = AdaptiveScheduler::new(500, 5_000, 1_000);
    assert_eq!(s.suggested_interval(), 5_000);
}

#[test]
fn high_volatility_pulls_interval_down() {
    let mut s = AdaptiveScheduler::new(500, 5_000, 1_000);
    s.record(1_000, 0);
    // Volatility average is (4*0 + 1000)/5 = 200; the cut is
    // 200 * (5000-500) / 1000 = 900, so 5000 - 900 = 4100.
    assert_eq!(s.suggested_interval(), 4_100);
    let calm = s.suggested_interval();
    s.record(1_000, 0);
    assert!(s.suggested_interval() < calm);
}

#[test]
fn latency_is_a_floor_for_the_interval() {
    let mut s = AdaptiveScheduler::new(500, 5_000, 1_000);
    for _ in 0..40 {
        s.record(1_000, 4_900);
    }
    // Volatility drives the linear part toward the minimum, but the
    // latency average (approaching 4900) floors the suggestion.
    let interval = s.suggested_interval();
    assert!(interval >= 4_000);
    assert!(interval <= 5_000);
}

#[test]
fn moving_averages_follow_the_one_fifth_rule() {
    let mut s = AdaptiveScheduler::new(500, 5_000, 1_000);
    s.record(600, 100);
    let stats = s.statistics();
    assert_eq!(s.ewma_volatility_permille, 120);
    assert_eq!(stats.avg_latency_ms, 20);
    assert_eq!(stats.total_refreshes, 1);
    s.record(600, 100);
    let stats = s.statistics();
    assert_eq!(s.ewma_volatility_permille, 216);
    assert_eq!(stats.avg_latency_ms, 36);
    assert_eq!(stats.total_refreshes, 2);
}

#[test]
fn volatility_sample_is_clamped_to_scale() {
    let mut s = AdaptiveScheduler::new(500, 5_000, 1_000);
    s.record(1_000_000, 0);
    assert_eq!(s.ewma_volatility_permille, 200);
}

#[test]
fn gpu_counters_accumulate() {
    let mut s = AdaptiveScheduler::new(500, 5_000, 1_000);
    s.note_gpu(3, false);
    s.note_gpu(2, true);
    let stats = s.statistics();
    assert_eq!(stats.retried_gpu_queries, 5);
    assert_eq!(stats.failed_gpu_queries, 1);
}

#[test]
fn interval_observations_average() {
    let mut s = AdaptiveScheduler::new(500, 5_000, 1_000);
    s.note_interval(1_000);
    assert_eq!(s.statistics().avg_interval_ms, 200);
}
