use sysmon_core::errors::MonitorError;
use sysmon_core::errors::SensorError;
use sysmon_core::models::DiskInfo;
use sysmon_core::models::GpuDevice;
use sysmon_core::models::GpuInfo;
use sysmon_core::models::NetworkInfo;
use sysmon_core::models::system_info_eq;
use sysmon_core::monitor::HostReading;
use sysmon_core::monitor::MonitorConfig;
use sysmon_core::monitor::RefreshOutcome;
use sysmon_core::monitor::SensorBatch;
use sysmon_core::monitor::SystemMonitor;

fn host(mem_used: u64) -> HostReading {
    HostReading {
        cpu_usage_permille: 300,
        memory_total_mb: 16_000,
        memory_used_mb: mem_used,
        disks: vec![DiskInfo { name: String::from("sda"), total_mb: 500_000, used_mb: 120_000 }],
        networks: vec![NetworkInfo {
            name: String::from("eth0"),
            received_bytes: 10_000,
            transmitted_bytes: 2_000,
        }],
    }
}

fn one_gpu() -> GpuInfo {
    GpuInfo {
        devices: vec![GpuDevice {
            name: String::from("gpu0"),
            utilization_permille: 400,
            memory_total_mb: 8_000,
            memory_used_mb: 1_000,
            temperature_c: 60,
        }],
    }
}

fn pad(mut attempts: Vec<Result<GpuInfo, SensorError>>, n: usize) -> Vec<Result<GpuInfo, SensorError>> {
    while attempts.len() < n {
        attempts.push(Err(SensorError::Transient));
    }
    attempts
}

fn batch(ts: u64, mem_used: u64, gpu: Vec<Result<GpuInfo, SensorError>>) -> SensorBatch {
    SensorBatch { host: Ok(host(mem_used)), gpu_attempts: gpu, timestamp_ms: ts, latency_ms: 50 }
}

#[test]
fn transient_gpu_failures_then_success_still_succeed() {
    let mut config = MonitorConfig::default();
    config.retry_max_attempts = 4;
    let mut m = SystemMonitor::new(config);
    let attempts = vec![
        Err(SensorError::Transient),
        Err(SensorError::Transient),
        Err(SensorError::Transient),
        Ok(one_gpu()),
    ];
    let s = m.refresh(batch(1_000, 4_000, attempts)).expect("mandatory sensors are fine");
    assert!(s.gpu.is_some());
    assert_eq!(s.gpu.unwrap().devices.len(), 1);
    assert_eq!(m.last_outcome, Some(RefreshOutcome::Success));
    let stats = m.get_refresh_statistics();
    assert_eq!(stats.retried_gpu_queries, 3);
    assert_eq!(stats.failed_gpu_queries, 0);
    assert_eq!(stats.total_refreshes, 1);
}

#[test]
fn exhausted_gpu_retries_degrade_the_refresh() {
    let mut m = SystemMonitor::new(MonitorConfig::default());
    let attempts = pad(vec![], 3);
    let s = m.refresh(batch(1_000, 4_000, attempts)).expect("mandatory sensors are fine");
    assert!(s.gpu.is_none());
    assert_eq!(m.last_outcome, Some(RefreshOutcome::Degraded));
    let stats = m.get_refresh_statistics();
    assert_eq!(stats.retried_gpu_queries, 2);
    assert_eq!(stats.failed_gpu_queries, 1);
    let (enabled, last_error) = m.get_gpu_monitor_status();
    assert!(enabled);
    assert_eq!(
        last_error,
        Some(String::from("gpu query failed transiently after retries"))
    );
}

#[test]
fn mandatory_sensor_failure_aborts_and_monitor_stays_usable() {
    let mut m = SystemMonitor::new(MonitorConfig::default());
    let bad = SensorBatch {
        host: Err(SensorError::Transient),
        gpu_attempts: pad(vec![Ok(one_gpu())], 3),
        timestamp_ms: 1_000,
        latency_ms: 50,
    };
    assert!(matches!(m.refresh(bad), Err(MonitorError::SensorUnavailable)));
    assert_eq!(m.last_outcome, Some(RefreshOutcome::Failed));
    assert_eq!(m.get_refresh_statistics().total_refreshes, 0);
    let good = batch(2_000, 4_000, pad(vec![Ok(one_gpu())], 3));
    let s = m.refresh(good).expect("monitor must recover");
    assert_eq!(s.timestamp_ms, 2_000);
    assert_eq!(m.last_outcome, Some(RefreshOutcome::Success));
}

#[test]
fn disabled_gpu_is_not_polled() {
    let mut config = MonitorConfig::default();
    config.gpu_enabled = false;
    let mut m = SystemMonitor::new(config);
    let s = m.refresh(batch(1_000, 4_000, pad(vec![Ok(one_gpu())], 3))).expect("refresh");
    assert!(s.gpu.is_none());
    let stats = m.get_refresh_statistics();
    assert_eq!(stats.retried_gpu_queries, 0);
    assert_eq!(stats.failed_gpu_queries, 0);
    assert!(m.get_gpu_names().is_empty());
}

#[test]
fn disabling_gpu_hides_the_stored_reading() {
    let mut m = SystemMonitor::new(MonitorConfig::default());
    let _ = m.refresh(batch(1_000, 4_000, pad(vec![Ok(one_gpu())], 3))).expect("refresh");
    assert!(m.get_gpu_info().is_some());
    let mut config = MonitorConfig::default();
    config.gpu_enabled = false;
    m.update_config(config);
    assert!(m.get_gpu_info().is_none());
    config.gpu_enabled = true;
    m.update_config(config);
    assert!(m.get_gpu_info().is_some());
}

#[test]
fn snapshots_carry_strictly_increasing_timestamps() {
    let mut m = SystemMonitor::new(MonitorConfig::default());
    let a = m.refresh(batch(1_000, 4_000, pad(vec![], 3))).expect("refresh");
    let b = m.refresh(batch(1_500, 4_100, pad(vec![], 3))).expect("refresh");
    assert!(b.timestamp_ms > a.timestamp_ms);
}

#[test]
fn smart_refresh_returns_cached_snapshot_early() {
    let mut m = SystemMonitor::new(MonitorConfig::default());
    let first = m.refresh(batch(10_000, 4_000, pad(vec![], 3))).expect("refresh");
    // Well under the minimum interval of 500 ms: the cache answers, even
    // though the new batch reads differently.
    let cached = m
        .smart_refresh(batch(10_100, 9_999, pad(vec![], 3)))
        .expect("cache answers");
    assert!(system_info_eq(&cached, &first));
    assert_eq!(m.get_refresh_statistics().total_refreshes, 1);
    // Far past the maximum interval: a real refresh happens.
    let fresh = m
        .smart_refresh(batch(200_000, 5_000, pad(vec![], 3)))
        .expect("refresh happens");
    assert_eq!(fresh.memory_used_mb, 5_000);
    assert_eq!(m.get_refresh_statistics().total_refreshes, 2);
}

#[test]
fn update_config_normalizes_and_keeps_statistics() {
    let mut m = SystemMonitor::new(MonitorConfig::default());
    let _ = m.refresh(batch(1_000, 4_000, pad(vec![], 3))).expect("refresh");
    let before = m.get_refresh_statistics();
    m.update_config(MonitorConfig {
        min_interval_ms: 0,
        max_interval_ms: 100,
        gpu_enabled: false,
        volatility_sensitivity_permille: 1_000_000,
        retry_max_attempts: 0,
        retry_base_delay_ms: u64::MAX,
    });
    assert_eq!(m.config.min_interval_ms, 1);
    assert_eq!(m.config.max_interval_ms, 100);
    assert_eq!(m.config.retry_max_attempts, 1);
    assert_eq!(m.config.volatility_sensitivity_permille, 10_000);
    assert_eq!(m.config.retry_base_delay_ms, 30_000);
    assert_eq!(m.get_refresh_statistics(), before);
    let interval = m.suggested_refresh_interval();
    assert!(interval >= 1 && interval <= 100);
}

#[test]
fn reversed_interval_bounds_collapse_onto_minimum() {
    let m = SystemMonitor::new(MonitorConfig {
        min_interval_ms: 2_000,
        max_interval_ms: 100,
        gpu_enabled: true,
        volatility_sensitivity_permille: 1_000,
        retry_max_attempts: 3,
        retry_base_delay_ms: 100,
    });
    assert_eq!(m.config.min_interval_ms, 2_000);
    assert_eq!(m.config.max_interval_ms, 2_000);
}
