use sysmon_core::delta::SystemInfoDelta;
use sysmon_core::delta::apply_delta;
use sysmon_core::models::DiskInfo;
use sysmon_core::models::GpuDevice;
use sysmon_core::models::GpuInfo;
use sysmon_core::models::NetworkInfo;
use sysmon_core::models::SystemInfo;
use sysmon_core::models::system_info_eq;

fn snapshot_a() -> SystemInfo {
    SystemInfo {
        timestamp_ms: 1_000,
        cpu_usage_permille: 250,
        memory_total_mb: 16_000,
        memory_used_mb: 4_000,
        disks: vec![DiskInfo { name: String::from("sda"), total_mb: 500_000, used_mb: 120_000 }],
        networks: vec![NetworkInfo {
            name: String::from("eth0"),
            received_bytes: 10_000,
            transmitted_bytes: 2_000,
        }],
        gpu: None,
    }
}

fn snapshot_b() -> SystemInfo {
    SystemInfo {
        timestamp_ms: 2_000,
        cpu_usage_permille: 310,
        memory_total_mb: 16_000,
        memory_used_mb: 4_200,
        disks: vec![DiskInfo { name: String::from("sda"), total_mb: 500_000, used_mb: 121_000 }],
        networks: vec![NetworkInfo {
            name: String::from("eth0"),
            received_bytes: 10_000,
            transmitted_bytes: 2_000,
        }],
        gpu: Some(GpuInfo {
            devices: vec![GpuDevice {
                name: String::from("gpu0"),
                utilization_permille: 400,
                memory_total_mb: 8_000,
                memory_used_mb: 1_000,
                temperature_c: 60,
            }],
        }),
    }
}

#[test]
fn round_trip_reconstructs_second_snapshot() {
    let a = snapshot_a();
    let b = snapshot_b();
    let d = SystemInfoDelta::from_diff(&a, &b);
    let rebuilt = apply_delta(&Some(a), &d).expect("baseline present");
    assert!(system_info_eq(&rebuilt, &b));
}

#[test]
fn round_trip_of_identical_snapshots() {
    let a = snapshot_a();
    let b = snapshot_a();
    let d = SystemInfoDelta::from_diff(&a, &b);
    let rebuilt = apply_delta(&Some(a), &d).expect("baseline present");
    assert!(system_info_eq(&rebuilt, &snapshot_a()));
}

#[test]
fn round_trip_when_the_gpu_disappears() {
    let a = snapshot_b();
    let b = snapshot_a();
    let d = SystemInfoDelta::from_diff(&a, &b);
    let rebuilt = apply_delta(&Some(a), &d).expect("baseline present");
    assert!(system_info_eq(&rebuilt, &b));
    assert!(rebuilt.gpu.is_none());
}

#[test]
fn full_delta_on_empty_baseline_returns_snapshot() {
    let s = snapshot_b();
    let d = SystemInfoDelta::full(snapshot_b());
    let rebuilt = apply_delta(&None, &d).expect("full delta needs no baseline");
    assert!(system_info_eq(&rebuilt, &s));
}

#[test]
fn partial_delta_on_empty_baseline_yields_nothing() {
    let a = snapshot_a();
    let b = snapshot_b();
    let d = SystemInfoDelta::from_diff(&a, &b);
    assert!(apply_delta(&None, &d).is_none());
}

#[test]
fn diff_records_only_changed_fields() {
    let a = snapshot_a();
    let mut b = snapshot_a();
    b.timestamp_ms = 6_000;
    b.memory_used_mb = 4_200;
    let d = SystemInfoDelta::from_diff(&a, &b);
    match d {
        SystemInfoDelta::Partial(p) => {
            assert_eq!(p.timestamp_ms, 6_000);
            assert_eq!(p.memory_used_mb, Some(4_200));
            assert_eq!(p.cpu_usage_permille, None);
            assert_eq!(p.memory_total_mb, None);
            assert!(p.disks.is_none());
            assert!(p.networks.is_none());
            assert!(p.gpu.is_none());
        }
        SystemInfoDelta::Full(_) => panic!("diff of two snapshots must be partial"),
    }
}

#[test]
fn diff_records_gpu_appearing() {
    let a = snapshot_a();
    let b = snapshot_b();
    let d = SystemInfoDelta::from_diff(&a, &b);
    match d {
        SystemInfoDelta::Partial(p) => {
            assert_eq!(p.cpu_usage_permille, Some(310));
            assert_eq!(p.memory_used_mb, Some(4_200));
            assert_eq!(p.memory_total_mb, None);
            assert!(p.disks.is_some());
            assert!(p.networks.is_none());
            match p.gpu {
                Some(Some(g)) => assert_eq!(g.devices.len(), 1),
                _ => panic!("gpu change must be recorded as present"),
            }
        }
        SystemInfoDelta::Full(_) => panic!("diff of two snapshots must be partial"),
    }
}

#[test]
fn changed_fields_counts() {
    let a = snapshot_a();
    let b = snapshot_b();
    let d = SystemInfoDelta::from_diff(&a, &b);
    assert_eq!(d.changed_fields(), 4);
    let same = SystemInfoDelta::from_diff(&a, &snapshot_a());
    assert_eq!(same.changed_fields(), 0);
    let full = SystemInfoDelta::full(snapshot_a());
    assert_eq!(full.changed_fields(), 6);
}
