//! The system monitor: configuration, the GPU monitor, the adaptive
//! scheduler, and the refresh cycle that assembles validated snapshots.
//!
//! A refresh consumes one `SensorBatch`: the mandatory host reading, the
//! recorded outcomes of successive GPU query attempts, the reading's
//! timestamp and its sampling latency. Mandatory-sensor failure aborts the
//! refresh with `SensorUnavailable`; GPU failure only degrades it. Each
//! refresh runs under `&mut self`, so sampling windows of one monitor are
//! serialized by exclusive access, and every refresh ends back at rest with
//! an outcome recorded — the monitor is never stuck mid-cycle.

use vstd::prelude::*;
use crate::adaptive_refresh::AdaptiveScheduler;
use crate::adaptive_refresh::INTERVAL_CAP_MS;
use crate::adaptive_refresh::RefreshStatistics;
use crate::adaptive_refresh::SENSITIVITY_CAP_PERMILLE;
use crate::adaptive_refresh::VOLATILITY_SCALE;
use crate::adaptive_refresh::min_u64;
use crate::adaptive_refresh::note_gpu_view;
use crate::adaptive_refresh::note_interval_view;
use crate::adaptive_refresh::record_latency_view;
use crate::adaptive_refresh::record_view;
use crate::adaptive_refresh::suggested_view;
use crate::delta::SystemInfoDelta;
use crate::delta::base_view;
use crate::delta::changed_field_count;
use crate::delta::diff_view;
use crate::errors::MonitorError;
use crate::errors::SensorError;
use crate::gpu_monitor::GpuMonitor;
use crate::gpu_monitor::detail_view;
use crate::gpu_monitor::device_count_view;
use crate::gpu_monitor::error_text_view;
use crate::gpu_monitor::names_of;
use crate::gpu_monitor::opt_string_view;
use crate::models::DiskInfo;
use crate::models::DiskInfoView;
use crate::models::GpuInfo;
use crate::models::GpuInfoView;
use crate::models::NetworkInfo;
use crate::models::NetworkInfoView;
use crate::models::SystemInfo;
use crate::models::SystemInfoView;
use crate::models::clone_gpu;
use crate::models::gpu_view;
use crate::retry::BACKOFF_CAP_MS;
use crate::retry::RetryPolicy;
use crate::retry::lemma_retry_count_bound;
use crate::retry::retry_count;
use crate::retry::retry_result;

verus! {

/// Upper cap on configured retry attempts.
pub const ATTEMPTS_CAP: u32 = 10;

/// Recognized monitoring options. Values are normalized into their caps when
/// the configuration is installed; it takes effect on the next refresh.
#[derive(Clone, Copy, Debug, PartialEq, Eq, Structural)]
pub struct MonitorConfig {
    pub min_interval_ms: u64,
    pub max_interval_ms: u64,
    pub gpu_enabled: bool,
    pub volatility_sensitivity_permille: u64,
    pub retry_max_attempts: u32,
    pub retry_base_delay_ms: u64,
}

impl MonitorConfig {
    /// Well-formedness: interval bounds ordered and capped, at least one
    /// retry attempt, backoff base within its cap.
    pub open spec fn wf(self) -> bool {
        &&& 1 <= self.min_interval_ms
        &&& self.min_interval_ms <= self.max_interval_ms
        &&& self.max_interval_ms <= INTERVAL_CAP_MS
        &&& self.volatility_sensitivity_permille <= SENSITIVITY_CAP_PERMILLE
        &&& 1 <= self.retry_max_attempts
        &&& self.retry_max_attempts <= ATTEMPTS_CAP
        &&& self.retry_base_delay_ms <= BACKOFF_CAP_MS
    }
}

/// The configuration a monitor starts from when none is given.
pub open spec fn default_config() -> MonitorConfig {
    MonitorConfig {
        min_interval_ms: 500,
        max_interval_ms: 5000,
        gpu_enabled: true,
        volatility_sensitivity_permille: 1000,
        retry_max_attempts: 3,
        retry_base_delay_ms: 100,
    }
}

impl Default for MonitorConfig {
    fn default() -> (r: Self)
        ensures
            r == default_config(),
            r.wf(),
    {
        MonitorConfig {
            min_interval_ms: 500,
            max_interval_ms: 5000,
            gpu_enabled: true,
            volatility_sensitivity_permille: 1000,
            retry_max_attempts: 3,
            retry_base_delay_ms: 100,
        }
    }
}

/// A value clamped into an inclusive range.
pub open spec fn clamp_u64(v: u64, lo: u64, hi: u64) -> u64 {
    if v < lo {
        lo
    } else if v > hi {
        hi
    } else {
        v
    }
}

/// A submitted configuration with every field forced into its cap; a
/// reversed interval order collapses onto the clamped minimum.
pub open spec fn normalized_config(c: MonitorConfig) -> MonitorConfig {
    let min = clamp_u64(c.min_interval_ms, 1, INTERVAL_CAP_MS);
    MonitorConfig {
        min_interval_ms: min,
        max_interval_ms: clamp_u64(c.max_interval_ms, min, INTERVAL_CAP_MS),
        gpu_enabled: c.gpu_enabled,
        volatility_sensitivity_permille: min_u64(
            c.volatility_sensitivity_permille,
            SENSITIVITY_CAP_PERMILLE,
        ),
        retry_max_attempts: if c.retry_max_attempts < 1 {
            1
        } else if c.retry_max_attempts > ATTEMPTS_CAP {
            ATTEMPTS_CAP
        } else {
            c.retry_max_attempts
        },
        retry_base_delay_ms: min_u64(c.retry_base_delay_ms, BACKOFF_CAP_MS),
    }
}

/// Normalizes a submitted configuration; the result is well-formed.
pub fn normalize_config(c: MonitorConfig) -> (r: MonitorConfig)
    ensures
        r == normalized_config(c),
        r.wf(),
{
    let min = if c.min_interval_ms < 1 {
        1
    } else if c.min_interval_ms > INTERVAL_CAP_MS {
        INTERVAL_CAP_MS
    } else {
        c.min_interval_ms
    };
    let max = if c.max_interval_ms < min {
        min
    } else if c.max_interval_ms > INTERVAL_CAP_MS {
        INTERVAL_CAP_MS
    } else {
        c.max_interval_ms
    };
    MonitorConfig {
        min_interval_ms: min,
        max_interval_ms: max,
        gpu_enabled: c.gpu_enabled,
        volatility_sensitivity_permille: if c.volatility_sensitivity_permille
            < SENSITIVITY_CAP_PERMILLE {
            c.volatility_sensitivity_permille
        } else {
            SENSITIVITY_CAP_PERMILLE
        },
        retry_max_attempts: if c.retry_max_attempts < 1 {
            1
        } else if c.retry_max_attempts > ATTEMPTS_CAP {
            ATTEMPTS_CAP
        } else {
            c.retry_max_attempts
        },
        retry_base_delay_ms: if c.retry_base_delay_ms < BACKOFF_CAP_MS {
            c.retry_base_delay_ms
        } else {
            BACKOFF_CAP_MS
        },
    }
}

/// The mandatory (non-GPU) part of one sensor reading.
#[derive(Debug)]
pub struct HostReading {
    pub cpu_usage_permille: u32,
    pub memory_total_mb: u64,
    pub memory_used_mb: u64,
    pub disks: Vec<DiskInfo>,
    pub networks: Vec<NetworkInfo>,
}

#[verifier::ext_equal]
pub ghost struct HostReadingView {
    pub cpu_usage_permille: u32,
    pub memory_total_mb: u64,
    pub memory_used_mb: u64,
    pub disks: Seq<DiskInfoView>,
    pub networks: Seq<NetworkInfoView>,
}

impl View for HostReading {
    type V = HostReadingView;

    open spec fn view(&self) -> HostReadingView {
        HostReadingView {
            cpu_usage_permille: self.cpu_usage_permille,
            memory_total_mb: self.memory_total_mb,
            memory_used_mb: self.memory_used_mb,
            disks: self.disks@.map_values(|d: DiskInfo| d@),
            networks: self.networks@.map_values(|n: NetworkInfo| n@),
        }
    }
}

/// Everything one refresh learns from the sensors: the mandatory reading or
/// its failure, the recorded outcomes of successive GPU query attempts, the
/// reading's timestamp and the latency the sampling cost.
#[derive(Debug)]
pub struct SensorBatch {
    pub host: Result<HostReading, SensorError>,
    pub gpu_attempts: Vec<Result<GpuInfo, SensorError>>,
    pub timestamp_ms: u64,
    pub latency_ms: u64,
}

/// The terminal state one refresh cycle reached before returning to rest.
#[derive(Clone, Copy, Debug, PartialEq, Eq, Structural)]
pub enum RefreshOutcome {
    /// All sensors answered.
    Success,
    /// Mandatory sensors answered; the GPU query failed.
    Degraded,
    /// A mandatory sensor failed; no snapshot was produced.
    Failed,
}

/// The orchestrator: holds the configuration, the GPU monitor, the adaptive
/// scheduler and the snapshot history, and performs refresh cycles.
pub struct SystemMonitor {
    pub config: MonitorConfig,
    pub gpu_monitor: GpuMonitor,
    pub scheduler: AdaptiveScheduler,
    pub last_snapshot: Option<SystemInfo>,
    pub last_refresh_ms: u64,
    pub last_outcome: Option<RefreshOutcome>,
}

impl SystemMonitor {
    /// Well-formedness: the configuration is normalized, the scheduler
    /// mirrors its bounds, GPU enablement mirrors the configuration, and the
    /// held snapshot's timestamp is the last refresh time (zero when none).
    pub open spec fn wf(self) -> bool {
        &&& self.config.wf()
        &&& self.scheduler.wf()
        &&& self.scheduler.min_interval_ms == self.config.min_interval_ms
        &&& self.scheduler.max_interval_ms == self.config.max_interval_ms
        &&& self.scheduler.volatility_sensitivity_permille
            == self.config.volatility_sensitivity_permille
        &&& self.gpu_monitor.enabled == self.config.gpu_enabled
        &&& match base_view(self.last_snapshot) {
            Some(s) => s.timestamp_ms == self.last_refresh_ms && self.last_refresh_ms > 0,
            None => self.last_refresh_ms == 0,
        }
    }
}

/// The snapshot assembled from a host reading, a GPU slot and a timestamp.
pub open spec fn snapshot_view(h: HostReadingView, gpu: Option<GpuInfoView>, ts: u64) -> SystemInfoView {
    SystemInfoView {
        timestamp_ms: ts,
        cpu_usage_permille: h.cpu_usage_permille,
        memory_total_mb: h.memory_total_mb,
        memory_used_mb: h.memory_used_mb,
        disks: h.disks,
        networks: h.networks,
        gpu,
    }
}

/// The GPU slot a refresh attaches: nothing when polling is disabled, when
/// the query failed, or when no device exists; the reading otherwise.
pub open spec fn gpu_slot_view(
    cfg: MonitorConfig,
    attempts: Seq<Result<GpuInfo, SensorError>>,
) -> Option<GpuInfoView> {
    if !cfg.gpu_enabled {
        None
    } else {
        match retry_result(attempts, cfg.retry_max_attempts as int) {
            Ok(info) => if info@.devices.len() == 0 {
                None
            } else {
                Some(info@)
            },
            Err(_) => None,
        }
    }
}

/// Whether the GPU query of a refresh ends in failure after all retries.
pub open spec fn gpu_degraded(cfg: MonitorConfig, attempts: Seq<Result<GpuInfo, SensorError>>) -> bool {
    cfg.gpu_enabled && retry_result(attempts, cfg.retry_max_attempts as int) is Err
}

/// The snapshot a successful refresh of `m` on `batch` produces. Meaningful
/// when the batch's host reading is a success.
pub open spec fn refreshed_view(m: SystemMonitor, batch: SensorBatch) -> SystemInfoView {
    match batch.host {
        Ok(h) => snapshot_view(
            h@,
            gpu_slot_view(m.config, batch.gpu_attempts@),
            batch.timestamp_ms,
        ),
        Err(_) => SystemInfoView {
            timestamp_ms: batch.timestamp_ms,
            cpu_usage_permille: 0,
            memory_total_mb: 0,
            memory_used_mb: 0,
            disks: Seq::empty(),
            networks: Seq::empty(),
            gpu: None,
        },
    }
}

/// Observed volatility of a refresh against the previous snapshot, in
/// permille of the six compared fields; nothing on a first refresh.
pub open spec fn volatility_of(base: Option<SystemInfoView>, new: SystemInfoView) -> Option<u64> {
    match base {
        Some(b) => Some(
            ((changed_field_count(diff_view(b, new)) * (VOLATILITY_SCALE as int)) / 6) as u64,
        ),
        None => None,
    }
}

/// The scheduler after a successful refresh: the elapsed interval is noted
/// when a refresh preceded, volatility and latency are recorded, and the GPU
/// round's retries and outcome are counted when polling is enabled.
pub open spec fn scheduler_after(m: SystemMonitor, batch: SensorBatch, sv: SystemInfoView) -> AdaptiveScheduler {
    let s1 = if m.last_refresh_ms > 0 {
        note_interval_view(m.scheduler, (batch.timestamp_ms - m.last_refresh_ms) as u64)
    } else {
        m.scheduler
    };
    let s2 = match volatility_of(base_view(m.last_snapshot), sv) {
        Some(mag) => record_view(s1, mag, batch.latency_ms),
        None => record_latency_view(s1, batch.latency_ms),
    };
    if m.config.gpu_enabled {
        note_gpu_view(
            s2,
            retry_count(batch.gpu_attempts@, m.config.retry_max_attempts as int) as u32,
            gpu_degraded(m.config, batch.gpu_attempts@),
        )
    } else {
        s2
    }
}

/// Statistics of one successful refresh with GPU polling on: the refresh
/// total gains exactly one and the retried counter exactly the GPU round's
/// retries, and a GPU round that ends in success leaves the failure counter
/// unchanged. The counters saturate at the integer bound, so this holds
/// whenever they still have headroom — in a process's lifetime they always
/// do.
pub proof fn lemma_refresh_statistics(pre: SystemMonitor, batch: SensorBatch, sv: SystemInfoView)
    requires
        pre.wf(),
        batch.host is Ok,
        pre.config.gpu_enabled,
        pre.scheduler.stats.total_refreshes < u64::MAX,
        pre.scheduler.stats.retried_gpu_queries <= u64::MAX - retry_count(
            batch.gpu_attempts@,
            pre.config.retry_max_attempts as int,
        ),
    ensures
        scheduler_after(pre, batch, sv).stats.total_refreshes == pre.scheduler.stats.total_refreshes
            + 1,
        scheduler_after(pre, batch, sv).stats.retried_gpu_queries
            == pre.scheduler.stats.retried_gpu_queries + retry_count(
            batch.gpu_attempts@,
            pre.config.retry_max_attempts as int,
        ),
        !gpu_degraded(pre.config, batch.gpu_attempts@) ==> scheduler_after(
            pre,
            batch,
            sv,
        ).stats.failed_gpu_queries == pre.scheduler.stats.failed_gpu_queries,
{
    lemma_retry_count_bound(batch.gpu_attempts@, pre.config.retry_max_attempts as int);
}

/// What a refresh does to the GPU monitor's state: nothing when polling is
/// disabled; otherwise the poll's outcome decides reading and diagnostic.
pub open spec fn gpu_state_post(
    pre: GpuMonitor,
    post: GpuMonitor,
    cfg: MonitorConfig,
    attempts: Seq<Result<GpuInfo, SensorError>>,
) -> bool {
    &&& post.enabled == pre.enabled
    &&& if !cfg.gpu_enabled {
        post == pre
    } else {
        match retry_result(attempts, cfg.retry_max_attempts as int) {
            Ok(info) => {
                &&& post.last_error is None
                &&& if info@.devices.len() == 0 {
                    post.last_info is None
                } else {
                    gpu_view(post.last_info) == Some(info@)
                }
            },
            Err(e) => {
                &&& opt_string_view(post.last_error) == Some(error_text_view(e))
                &&& gpu_view(post.last_info) == gpu_view(pre.last_info)
            },
        }
    }
}

/// What one `refresh` call does to the monitor's state: on mandatory-sensor
/// failure everything but the recorded outcome stays; on success the
/// snapshot, the refresh time, the scheduler and the GPU monitor advance.
pub open spec fn refresh_state_post(
    pre: SystemMonitor,
    post: SystemMonitor,
    batch: SensorBatch,
) -> bool {
    &&& post.config == pre.config
    &&& match batch.host {
        Err(_) => {
            &&& post.last_snapshot == pre.last_snapshot
            &&& post.last_refresh_ms == pre.last_refresh_ms
            &&& post.scheduler == pre.scheduler
            &&& post.gpu_monitor == pre.gpu_monitor
            &&& post.last_outcome == Some(RefreshOutcome::Failed)
        },
        Ok(_) => {
            let sv = refreshed_view(pre, batch);
            &&& base_view(post.last_snapshot) == Some(sv)
            &&& post.last_refresh_ms == batch.timestamp_ms
            &&& post.scheduler == scheduler_after(pre, batch, sv)
            &&& gpu_state_post(pre.gpu_monitor, post.gpu_monitor, pre.config, batch.gpu_attempts@)
            &&& post.last_outcome == Some(
                if gpu_degraded(pre.config, batch.gpu_attempts@) {
                    RefreshOutcome::Degraded
                } else {
                    RefreshOutcome::Success
                },
            )
        },
    }
}

/// Everything one `refresh` call does, as a relation between the monitor
/// before, the monitor after, the batch and the returned value.
pub open spec fn refresh_post(
    pre: SystemMonitor,
    post: SystemMonitor,
    batch: SensorBatch,
    r: Result<SystemInfo, MonitorError>,
) -> bool {
    &&& refresh_state_post(pre, post, batch)
    &&& match batch.host {
        Err(_) => r == Err::<SystemInfo, MonitorError>(MonitorError::SensorUnavailable),
        Ok(_) => (r matches Ok(s) && s@ == refreshed_view(pre, batch)),
    }
}

/// Whether `smart_refresh` answers from the cache: a previous snapshot
/// exists and not enough time has elapsed since it was taken.
pub open spec fn smart_cached(m: SystemMonitor, batch: SensorBatch) -> bool {
    &&& m.last_refresh_ms > 0
    &&& batch.timestamp_ms - m.last_refresh_ms < suggested_view(m.scheduler)
}

impl SystemMonitor {
    /// A monitor over the given configuration (normalized), with empty
    /// snapshot history and zeroed statistics.
    pub fn new(config: MonitorConfig) -> (r: SystemMonitor)
        ensures
            r.wf(),
            r.config == normalized_config(config),
            r.last_snapshot is None,
            r.last_refresh_ms == 0,
            r.last_outcome is None,
            r.gpu_monitor.last_error is None,
            r.gpu_monitor.last_info is None,
            r.scheduler.ewma_volatility_permille == 0,
            r.scheduler.stats == crate::adaptive_refresh::zero_stats(),
    {
        let cfg = normalize_config(config);
        SystemMonitor {
            config: cfg,
            gpu_monitor: GpuMonitor::new(cfg.gpu_enabled),
            scheduler: AdaptiveScheduler::new(
                cfg.min_interval_ms,
                cfg.max_interval_ms,
                cfg.volatility_sensitivity_permille,
            ),
            last_snapshot: None,
            last_refresh_ms: 0,
            last_outcome: None,
        }
    }

    /// Replaces the configuration (normalized); it takes effect on the next
    /// refresh and does not alter already-accumulated statistics.
    pub fn update_config(&mut self, config: MonitorConfig)
        requires
            old(self).wf(),
        ensures
            final(self).wf(),
            final(self).config == normalized_config(config),
            final(self).scheduler.stats == old(self).scheduler.stats,
            final(self).scheduler.ewma_volatility_permille == old(
                self,
            ).scheduler.ewma_volatility_permille,
            final(self).gpu_monitor.last_error == old(self).gpu_monitor.last_error,
            final(self).gpu_monitor.last_info == old(self).gpu_monitor.last_info,
            final(self).last_snapshot == old(self).last_snapshot,
            final(self).last_refresh_ms == old(self).last_refresh_ms,
            final(self).last_outcome == old(self).last_outcome,
    {
        let cfg = normalize_config(config);
        self.config = cfg;
        self.scheduler.min_interval_ms = cfg.min_interval_ms;
        self.scheduler.max_interval_ms = cfg.max_interval_ms;
        self.scheduler.volatility_sensitivity_permille = cfg.volatility_sensitivity_permille;
        self.gpu_monitor.set_enabled(cfg.gpu_enabled);
    }

    /// One full refresh cycle on a batch of sensor readings. Mandatory
    /// sensors decide success; the GPU query runs through the retry policy
    /// when enabled, and its failure only degrades the snapshot. The
    /// scheduler learns the elapsed interval, the observed volatility and
    /// latency, and the GPU round's cost.
    pub fn refresh(&mut self, batch: SensorBatch) -> (r: Result<SystemInfo, MonitorError>)
        requires
            old(self).wf(),
            batch.timestamp_ms > old(self).last_refresh_ms,
            old(self).config.gpu_enabled ==> batch.gpu_attempts@.len() >= old(
                self,
            ).config.retry_max_attempts,
        ensures
            final(self).wf(),
            refresh_post(*old(self), *final(self), batch, r),
    {
        let ghost pre = *old(self);
        let SensorBatch { host, gpu_attempts, timestamp_ms, latency_ms } = batch;
        match host {
            Err(_) => {
                self.last_outcome = Some(RefreshOutcome::Failed);
                Err(MonitorError::SensorUnavailable)
            },
            Ok(h) => {
                if self.last_refresh_ms > 0 {
                    self.scheduler.note_interval(timestamp_ms - self.last_refresh_ms);
                }
                let gpu_slot: Option<GpuInfo>;
                let mut degraded = false;
                let mut retries: u32 = 0;
                if self.config.gpu_enabled {
                    let policy = RetryPolicy::new(
                        self.config.retry_max_attempts,
                        self.config.retry_base_delay_ms,
                    );
                    let (res, n) = self.gpu_monitor.poll(&policy, gpu_attempts);
                    retries = n;
                    match res {
                        Ok(g) => {
                            gpu_slot = g;
                        },
                        Err(_) => {
                            gpu_slot = None;
                            degraded = true;
                        },
                    }
                } else {
                    gpu_slot = None;
                }
                let snapshot = SystemInfo {
                    timestamp_ms,
                    cpu_usage_permille: h.cpu_usage_permille,
                    memory_total_mb: h.memory_total_mb,
                    memory_used_mb: h.memory_used_mb,
                    disks: h.disks,
                    networks: h.networks,
                    gpu: gpu_slot,
                };
                proof {
                    assert(snapshot@ =~= refreshed_view(pre, batch));
                }
                match &self.last_snapshot {
                    Some(prev) => {
                        let d = SystemInfoDelta::from_diff(prev, &snapshot);
                        let changed = d.changed_fields();
                        let mag = (changed as u64) * 1000 / 6;
                        self.scheduler.record(mag, latency_ms);
                    },
                    None => {
                        self.scheduler.record_latency_only(latency_ms);
                    },
                }
                if self.config.gpu_enabled {
                    self.scheduler.note_gpu(retries, degraded);
                }
                let out = snapshot.clone();
                self.last_snapshot = Some(snapshot);
                self.last_refresh_ms = timestamp_ms;
                self.last_outcome = Some(
                    if degraded {
                        RefreshOutcome::Degraded
                    } else {
                        RefreshOutcome::Success
                    },
                );
                proof {
                    assert(self.scheduler =~= scheduler_after(pre, batch, refreshed_view(pre, batch)));
                }
                Ok(out)
            },
        }
    }

    /// As `refresh`, but when a previous snapshot exists and less time has
    /// elapsed than the suggested interval, returns the cached snapshot
    /// unchanged instead of re-sampling.
    pub fn smart_refresh(&mut self, batch: SensorBatch) -> (r: Result<SystemInfo, MonitorError>)
        requires
            old(self).wf(),
            batch.timestamp_ms > old(self).last_refresh_ms,
            old(self).config.gpu_enabled ==> batch.gpu_attempts@.len() >= old(
                self,
            ).config.retry_max_attempts,
        ensures
            final(self).wf(),
            smart_cached(*old(self), batch) ==> {
                &&& *final(self) == *old(self)
                &&& (r matches Ok(s) && Some(s@) == base_view(old(self).last_snapshot))
            },
            !smart_cached(*old(self), batch) ==> refresh_post(*old(self), *final(self), batch, r),
    {
        if self.last_refresh_ms > 0 {
            let interval = self.scheduler.suggested_interval();
            if batch.timestamp_ms - self.last_refresh_ms < interval {
                match &self.last_snapshot {
                    Some(s) => {
                        return Ok(s.clone());
                    },
                    None => {
                        proof {
                            assert(false);
                        }
                    },
                }
            }
        }
        self.refresh(batch)
    }

    /// The monitor's current GPU reading: nothing when GPU polling is
    /// disabled — disablement reads as "no reading", like device absence and
    /// distinct from a query failure, which shows in `status` instead.
    pub fn get_gpu_info(&self) -> (r: Option<GpuInfo>)
        ensures
            self.gpu_monitor.enabled ==> gpu_view(r) == gpu_view(self.gpu_monitor.last_info),
            !self.gpu_monitor.enabled ==> r is None,
    {
        if self.gpu_monitor.enabled {
            clone_gpu(&self.gpu_monitor.last_info)
        } else {
            None
        }
    }

    /// GPU enablement and the last failure diagnostic; side-effect-free.
    pub fn get_gpu_monitor_status(&self) -> (r: (bool, Option<String>))
        ensures
            r.0 == self.gpu_monitor.enabled,
            opt_string_view(r.1) == opt_string_view(self.gpu_monitor.last_error),
    {
        self.gpu_monitor.status()
    }

    /// The known GPU device names; empty when disabled or none are known.
    pub fn get_gpu_names(&self) -> (r: Vec<String>)
        ensures
            self.gpu_monitor.enabled ==> r@.map_values(|s: String| s@) == names_of(
                gpu_view(self.gpu_monitor.last_info),
            ),
            !self.gpu_monitor.enabled ==> r@.len() == 0,
    {
        self.gpu_monitor.device_names()
    }

    /// The rendered detail line for one GPU device; `InvalidIndex` exactly
    /// when the index is at or past the known device count.
    pub fn get_detailed_gpu_info(&self, device_index: u32) -> (r: Result<String, MonitorError>)
        ensures
            match r {
                Ok(s) => {
                    &&& (device_index as int) < device_count_view(self.gpu_monitor)
                    &&& gpu_view(self.gpu_monitor.last_info) matches Some(g) && s@ == detail_view(
                        g.devices[device_index as int],
                    )
                },
                Err(e) => {
                    &&& e == MonitorError::InvalidIndex
                    &&& (device_index as int) >= device_count_view(self.gpu_monitor)
                },
            },
    {
        self.gpu_monitor.device_detail(device_index)
    }

    /// The suggested next sampling interval in milliseconds, always within
    /// the configured bounds.
    pub fn suggested_refresh_interval(&self) -> (r: u64)
        requires
            self.wf(),
        ensures
            r == suggested_view(self.scheduler),
            self.config.min_interval_ms <= r <= self.config.max_interval_ms,
    {
        self.scheduler.suggested_interval()
    }

    /// A read-only snapshot of the cumulative refresh statistics.
    pub fn get_refresh_statistics(&self) -> (r: RefreshStatistics)
        ensures
            r == self.scheduler.stats,
    {
        self.scheduler.statistics()
    }
}

} // verus!
