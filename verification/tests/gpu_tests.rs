use sysmon_core::errors::MonitorError;
use sysmon_core::errors::SensorError;
use sysmon_core::gpu_monitor::GpuMonitor;
use sysmon_core::models::GpuDevice;
use sysmon_core::models::GpuInfo;
use sysmon_core::retry::RetryPolicy;

fn device(name: &str, util: u32, used: u64, total: u64, temp: u32) -> GpuDevice {
    GpuDevice {
        name: String::from(name),
        utilization_permille: util,
        memory_total_mb: total,
        memory_used_mb: used,
        temperature_c: temp,
    }
}

#[test]
fn absent_gpu_is_ok_none_with_zero_retries() {
    let mut m = GpuMonitor::new(true);
    let policy = RetryPolicy::new(3, 100);
    let attempts: Vec<Result<GpuInfo, SensorError>> = vec![
        Ok(GpuInfo { devices: vec![] }),
        Err(SensorError::Transient),
        Err(SensorError::Transient),
    ];
    let (r, retries) = m.poll(&policy, attempts);
    assert!(matches!(r, Ok(None)));
    assert_eq!(retries, 0);
    let (enabled, last_error) = m.status();
    assert!(enabled);
    assert!(last_error.is_none());
}

#[test]
fn poll_success_stores_reading() {
    let mut m = GpuMonitor::new(true);
    let policy = RetryPolicy::new(3, 100);
    let attempts: Vec<Result<GpuInfo, SensorError>> = vec![
        Ok(GpuInfo { devices: vec![device("gpu0", 250, 512, 1024, 70)] }),
        Err(SensorError::Transient),
        Err(SensorError::Transient),
    ];
    let (r, retries) = m.poll(&policy, attempts);
    assert_eq!(retries, 0);
    match r {
        Ok(Some(info)) => assert_eq!(info.devices.len(), 1),
        _ => panic!("poll must return the reading"),
    }
    let names = m.device_names();
    assert_eq!(names, vec![String::from("gpu0")]);
    assert_eq!(m.device_count(), 1);
}

#[test]
fn poll_failure_records_diagnostic_and_keeps_reading() {
    let mut m = GpuMonitor::new(true);
    let policy = RetryPolicy::new(2, 100);
    let good: Vec<Result<GpuInfo, SensorError>> = vec![
        Ok(GpuInfo { devices: vec![device("gpu0", 250, 512, 1024, 70)] }),
        Err(SensorError::Transient),
    ];
    let (_, _) = m.poll(&policy, good);
    let bad: Vec<Result<GpuInfo, SensorError>> =
        vec![Err(SensorError::Transient), Err(SensorError::Transient)];
    let (r, retries) = m.poll(&policy, bad);
    assert!(matches!(r, Err(SensorError::Transient)));
    assert_eq!(retries, 1);
    let (_, last_error) = m.status();
    assert_eq!(
        last_error,
        Some(String::from("gpu query failed transiently after retries"))
    );
    assert_eq!(m.device_count(), 1);
}

#[test]
fn permanent_failure_has_its_own_diagnostic() {
    let mut m = GpuMonitor::new(true);
    let policy = RetryPolicy::new(3, 100);
    let attempts: Vec<Result<GpuInfo, SensorError>> = vec![
        Err(SensorError::Permanent),
        Err(SensorError::Transient),
        Err(SensorError::Transient),
    ];
    let (r, retries) = m.poll(&policy, attempts);
    assert!(matches!(r, Err(SensorError::Permanent)));
    assert_eq!(retries, 0);
    let (_, last_error) = m.status();
    assert_eq!(last_error, Some(String::from("gpu sensor unavailable")));
}

#[test]
fn device_detail_renders_the_device() {
    let mut m = GpuMonitor::new(true);
    let policy = RetryPolicy::new(1, 100);
    let attempts: Vec<Result<GpuInfo, SensorError>> =
        vec![Ok(GpuInfo { devices: vec![device("gpu0", 250, 512, 1024, 70)] })];
    let (_, _) = m.poll(&policy, attempts);
    let line = m.device_detail(0).expect("index 0 exists");
    assert_eq!(
        line,
        "gpu0: utilization 250/1000, memory 512/1024 MB, temperature 70 C"
    );
}

#[test]
fn device_detail_past_count_is_invalid_index() {
    let mut m = GpuMonitor::new(true);
    let policy = RetryPolicy::new(1, 100);
    let attempts: Vec<Result<GpuInfo, SensorError>> = vec![Ok(GpuInfo {
        devices: vec![
            device("gpu0", 250, 512, 1024, 70),
            device("gpu1", 100, 256, 1024, 55),
        ],
    })];
    let (_, _) = m.poll(&policy, attempts);
    assert_eq!(m.device_count(), 2);
    assert_eq!(m.device_detail(5), Err(MonitorError::InvalidIndex));
    assert!(m.device_detail(1).is_ok());
}

#[test]
fn disabled_monitor_knows_no_devices() {
    let m = GpuMonitor::new(false);
    assert_eq!(m.device_count(), 0);
    assert!(m.device_names().is_empty());
    assert_eq!(m.device_detail(0), Err(MonitorError::InvalidIndex));
    let (enabled, _) = m.status();
    assert!(!enabled);
}
