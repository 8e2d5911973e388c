//! The data model: snapshots and their substructures, with mathematical views.
//!
//! Every numeric field is unsigned, so the snapshot invariant "all numeric
//! fields are non-negative" holds by construction. Each type has a ghost view
//! over `Seq` and plain integers; every contract in the crate speaks of views.

use vstd::prelude::*;

verus! {

/// One disk's usage at a point in time.
#[derive(Debug)]
pub struct DiskInfo {
    pub name: String,
    pub total_mb: u64,
    pub used_mb: u64,
}

#[verifier::ext_equal]
pub ghost struct DiskInfoView {
    pub name: Seq<char>,
    pub total_mb: u64,
    pub used_mb: u64,
}

impl View for DiskInfo {
    type V = DiskInfoView;

    open spec fn view(&self) -> DiskInfoView {
        DiskInfoView { name: self.name@, total_mb: self.total_mb, used_mb: self.used_mb }
    }
}

impl Clone for DiskInfo {
    fn clone(&self) -> (r: Self)
        ensures
            r@ == self@,
    {
        DiskInfo { name: self.name.clone(), total_mb: self.total_mb, used_mb: self.used_mb }
    }
}

/// One network interface's cumulative traffic counters.
#[derive(Debug)]
pub struct NetworkInfo {
    pub name: String,
    pub received_bytes: u64,
    pub transmitted_bytes: u64,
}

#[verifier::ext_equal]
pub ghost struct NetworkInfoView {
    pub name: Seq<char>,
    pub received_bytes: u64,
    pub transmitted_bytes: u64,
}

impl View for NetworkInfo {
    type V = NetworkInfoView;

    open spec fn view(&self) -> NetworkInfoView {
        NetworkInfoView {
            name: self.name@,
            received_bytes: self.received_bytes,
            transmitted_bytes: self.transmitted_bytes,
        }
    }
}

impl Clone for NetworkInfo {
    fn clone(&self) -> (r: Self)
        ensures
            r@ == self@,
    {
        NetworkInfo {
            name: self.name.clone(),
            received_bytes: self.received_bytes,
            transmitted_bytes: self.transmitted_bytes,
        }
    }
}

/// One GPU device's readings. Utilization is in permille (0..=1000).
#[derive(Debug)]
pub struct GpuDevice {
    pub name: String,
    pub utilization_permille: u32,
    pub memory_total_mb: u64,
    pub memory_used_mb: u64,
    pub temperature_c: u32,
}

#[verifier::ext_equal]
pub ghost struct GpuDeviceView {
    pub name: Seq<char>,
    pub utilization_permille: u32,
    pub memory_total_mb: u64,
    pub memory_used_mb: u64,
    pub temperature_c: u32,
}

impl View for GpuDevice {
    type V = GpuDeviceView;

    open spec fn view(&self) -> GpuDeviceView {
        GpuDeviceView {
            name: self.name@,
            utilization_permille: self.utilization_permille,
            memory_total_mb: self.memory_total_mb,
            memory_used_mb: self.memory_used_mb,
            temperature_c: self.temperature_c,
        }
    }
}

impl Clone for GpuDevice {
    fn clone(&self) -> (r: Self)
        ensures
            r@ == self@,
    {
        GpuDevice {
            name: self.name.clone(),
            utilization_permille: self.utilization_permille,
            memory_total_mb: self.memory_total_mb,
            memory_used_mb: self.memory_used_mb,
            temperature_c: self.temperature_c,
        }
    }
}

/// GPU readings for all devices present. An empty device list means the
/// sensor answered but found no device, which is distinct from a query
/// failure (see `gpu_monitor`).
#[derive(Debug)]
pub struct GpuInfo {
    pub devices: Vec<GpuDevice>,
}

#[verifier::ext_equal]
pub ghost struct GpuInfoView {
    pub devices: Seq<GpuDeviceView>,
}

impl View for GpuInfo {
    type V = GpuInfoView;

    open spec fn view(&self) -> GpuInfoView {
        GpuInfoView { devices: self.devices@.map_values(|d: GpuDevice| d@) }
    }
}

impl Clone for GpuInfo {
    fn clone(&self) -> (r: Self)
        ensures
            r@ == self@,
    {
        let mut devices: Vec<GpuDevice> = Vec::new();
        let mut i: usize = 0;
        while i < self.devices.len()
            invariant
                i <= self.devices.len(),
                devices@.len() == i,
                forall|j: int| 0 <= j < i ==> devices@[j]@ == self.devices@[j]@,
            decreases self.devices.len() - i,
        {
            devices.push(self.devices[i].clone());
            i = i + 1;
        }
        proof {
            assert(devices@.map_values(|d: GpuDevice| d@)
                =~= self.devices@.map_values(|d: GpuDevice| d@));
        }
        GpuInfo { devices }
    }
}

/// One complete point-in-time system reading.
///
/// Timestamps of successive snapshots produced by the same monitor strictly
/// increase; the monitor enforces that through its `refresh` contract.
#[derive(Debug)]
pub struct SystemInfo {
    pub timestamp_ms: u64,
    pub cpu_usage_permille: u32,
    pub memory_total_mb: u64,
    pub memory_used_mb: u64,
    pub disks: Vec<DiskInfo>,
    pub networks: Vec<NetworkInfo>,
    pub gpu: Option<GpuInfo>,
}

#[verifier::ext_equal]
pub ghost struct SystemInfoView {
    pub timestamp_ms: u64,
    pub cpu_usage_permille: u32,
    pub memory_total_mb: u64,
    pub memory_used_mb: u64,
    pub disks: Seq<DiskInfoView>,
    pub networks: Seq<NetworkInfoView>,
    pub gpu: Option<GpuInfoView>,
}

/// The view of an optional GPU reading.
pub open spec fn gpu_view(g: Option<GpuInfo>) -> Option<GpuInfoView> {
    match g {
        Some(info) => Some(info@),
        None => None,
    }
}

impl View for SystemInfo {
    type V = SystemInfoView;

    open spec fn view(&self) -> SystemInfoView {
        SystemInfoView {
            timestamp_ms: self.timestamp_ms,
            cpu_usage_permille: self.cpu_usage_permille,
            memory_total_mb: self.memory_total_mb,
            memory_used_mb: self.memory_used_mb,
            disks: self.disks@.map_values(|d: DiskInfo| d@),
            networks: self.networks@.map_values(|n: NetworkInfo| n@),
            gpu: gpu_view(self.gpu),
        }
    }
}

/// Clones a disk list, keeping its view.
pub fn clone_disks(disks: &Vec<DiskInfo>) -> (r: Vec<DiskInfo>)
    ensures
        r@.map_values(|d: DiskInfo| d@) == disks@.map_values(|d: DiskInfo| d@),
{
    let mut out: Vec<DiskInfo> = Vec::new();
    let mut i: usize = 0;
    while i < disks.len()
        invariant
            i <= disks.len(),
            out@.len() == i,
            forall|j: int| 0 <= j < i ==> out@[j]@ == disks@[j]@,
        decreases disks.len() - i,
    {
        out.push(disks[i].clone());
        i = i + 1;
    }
    proof {
        assert(out@.map_values(|d: DiskInfo| d@) =~= disks@.map_values(|d: DiskInfo| d@));
    }
    out
}

/// Clones a network-interface list, keeping its view.
pub fn clone_networks(networks: &Vec<NetworkInfo>) -> (r: Vec<NetworkInfo>)
    ensures
        r@.map_values(|n: NetworkInfo| n@) == networks@.map_values(|n: NetworkInfo| n@),
{
    let mut out: Vec<NetworkInfo> = Vec::new();
    let mut i: usize = 0;
    while i < networks.len()
        invariant
            i <= networks.len(),
            out@.len() == i,
            forall|j: int| 0 <= j < i ==> out@[j]@ == networks@[j]@,
        decreases networks.len() - i,
    {
        out.push(networks[i].clone());
        i = i + 1;
    }
    proof {
        assert(out@.map_values(|n: NetworkInfo| n@)
            =~= networks@.map_values(|n: NetworkInfo| n@));
    }
    out
}

/// Clones an optional GPU reading, keeping its view.
pub fn clone_gpu(gpu: &Option<GpuInfo>) -> (r: Option<GpuInfo>)
    ensures
        gpu_view(r) == gpu_view(*gpu),
{
    match gpu {
        Some(info) => Some(info.clone()),
        None => None,
    }
}

/// Value equality of two disk readings, decided at the level of views.
pub fn disk_eq(a: &DiskInfo, b: &DiskInfo) -> (r: bool)
    ensures
        r == (a@ == b@),
{
    a.name == b.name && a.total_mb == b.total_mb && a.used_mb == b.used_mb
}

/// Value equality of two disk lists, decided at the level of views.
pub fn disks_eq(a: &Vec<DiskInfo>, b: &Vec<DiskInfo>) -> (r: bool)
    ensures
        r == (a@.map_values(|d: DiskInfo| d@) == b@.map_values(|d: DiskInfo| d@)),
{
    let ghost fa = a@.map_values(|d: DiskInfo| d@);
    let ghost fb = b@.map_values(|d: DiskInfo| d@);
    if a.len() != b.len() {
        proof {
            assert(fa.len() != fb.len());
        }
        return false;
    }
    let mut i: usize = 0;
    while i < a.len()
        invariant
            a@.len() == b@.len(),
            i <= a@.len(),
            fa == a@.map_values(|d: DiskInfo| d@),
            fb == b@.map_values(|d: DiskInfo| d@),
            forall|j: int| 0 <= j < i ==> a@[j]@ == b@[j]@,
        decreases a@.len() - i,
    {
        if !disk_eq(&a[i], &b[i]) {
            proof {
                assert(fa[i as int] != fb[i as int]);
            }
            return false;
        }
        i = i + 1;
    }
    proof {
        assert(fa =~= fb);
    }
    true
}

/// Value equality of two network-interface readings, at the level of views.
pub fn network_eq(a: &NetworkInfo, b: &NetworkInfo) -> (r: bool)
    ensures
        r == (a@ == b@),
{
    a.name == b.name && a.received_bytes == b.received_bytes
        && a.transmitted_bytes == b.transmitted_bytes
}

/// Value equality of two network-interface lists, at the level of views.
pub fn networks_eq(a: &Vec<NetworkInfo>, b: &Vec<NetworkInfo>) -> (r: bool)
    ensures
        r == (a@.map_values(|n: NetworkInfo| n@) == b@.map_values(|n: NetworkInfo| n@)),
{
    let ghost fa = a@.map_values(|n: NetworkInfo| n@);
    let ghost fb = b@.map_values(|n: NetworkInfo| n@);
    if a.len() != b.len() {
        proof {
            assert(fa.len() != fb.len());
        }
        return false;
    }
    let mut i: usize = 0;
    while i < a.len()
        invariant
            a@.len() == b@.len(),
            i <= a@.len(),
            fa == a@.map_values(|n: NetworkInfo| n@),
            fb == b@.map_values(|n: NetworkInfo| n@),
            forall|j: int| 0 <= j < i ==> a@[j]@ == b@[j]@,
        decreases a@.len() - i,
    {
        if !network_eq(&a[i], &b[i]) {
            proof {
                assert(fa[i as int] != fb[i as int]);
            }
            return false;
        }
        i = i + 1;
    }
    proof {
        assert(fa =~= fb);
    }
    true
}

/// Value equality of two GPU device readings, at the level of views.
pub fn gpu_device_eq(a: &GpuDevice, b: &GpuDevice) -> (r: bool)
    ensures
        r == (a@ == b@),
{
    a.name == b.name && a.utilization_permille == b.utilization_permille
        && a.memory_total_mb == b.memory_total_mb && a.memory_used_mb == b.memory_used_mb
        && a.temperature_c == b.temperature_c
}

/// Value equality of two GPU readings, at the level of views.
pub fn gpu_info_eq(a: &GpuInfo, b: &GpuInfo) -> (r: bool)
    ensures
        r == (a@ == b@),
{
    let ghost fa = a@.devices;
    let ghost fb = b@.devices;
    if a.devices.len() != b.devices.len() {
        proof {
            assert(fa.len() != fb.len());
        }
        return false;
    }
    let mut i: usize = 0;
    while i < a.devices.len()
        invariant
            a.devices@.len() == b.devices@.len(),
            i <= a.devices@.len(),
            fa == a@.devices,
            fb == b@.devices,
            forall|j: int| 0 <= j < i ==> a.devices@[j]@ == b.devices@[j]@,
        decreases a.devices@.len() - i,
    {
        if !gpu_device_eq(&a.devices[i], &b.devices[i]) {
            proof {
                assert(fa[i as int] != fb[i as int]);
            }
            return false;
        }
        i = i + 1;
    }
    proof {
        assert(fa =~= fb);
    }
    true
}

/// Value equality of two optional GPU readings, at the level of views.
pub fn gpu_opt_eq(a: &Option<GpuInfo>, b: &Option<GpuInfo>) -> (r: bool)
    ensures
        r == (gpu_view(*a) == gpu_view(*b)),
{
    match (a, b) {
        (Some(x), Some(y)) => gpu_info_eq(x, y),
        (None, None) => true,
        _ => false,
    }
}

/// Value equality of two snapshots, decided at the level of views.
pub fn system_info_eq(a: &SystemInfo, b: &SystemInfo) -> (r: bool)
    ensures
        r == (a@ == b@),
{
    let r = a.timestamp_ms == b.timestamp_ms
        && a.cpu_usage_permille == b.cpu_usage_permille
        && a.memory_total_mb == b.memory_total_mb
        && a.memory_used_mb == b.memory_used_mb
        && disks_eq(&a.disks, &b.disks)
        && networks_eq(&a.networks, &b.networks)
        && gpu_opt_eq(&a.gpu, &b.gpu);
    proof {
        if r {
            assert(a@ =~= b@);
        }
    }
    r
}

impl Clone for SystemInfo {
    fn clone(&self) -> (r: Self)
        ensures
            r@ == self@,
    {
        SystemInfo {
            timestamp_ms: self.timestamp_ms,
            cpu_usage_permille: self.cpu_usage_permille,
            memory_total_mb: self.memory_total_mb,
            memory_used_mb: self.memory_used_mb,
            disks: clone_disks(&self.disks),
            networks: clone_networks(&self.networks),
            gpu: clone_gpu(&self.gpu),
        }
    }
}

} // verus!
