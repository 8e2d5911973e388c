//! The shared application state around the monitor: the last-emitted
//! snapshot and the delta baseline, with the operations a caller dispatches.
//!
//! Every mutating operation takes `&mut self`: Rust's exclusive borrows are
//! the exclusive-access scope, so at most one refresh is in flight per state
//! value and a delta always pairs the snapshot that was current immediately
//! before the refresh that produced it. Read-only operations take `&self`
//! and touch nothing.

use vstd::prelude::*;
use crate::adaptive_refresh::RefreshStatistics;
use crate::adaptive_refresh::suggested_view;
use crate::delta::SystemInfoDelta;
use crate::delta::SystemInfoDeltaView;
use crate::delta::base_view;
use crate::delta::diff_view;
use crate::errors::MonitorError;
use crate::gpu_monitor::detail_view;
use crate::gpu_monitor::device_count_view;
use crate::gpu_monitor::names_of;
use crate::gpu_monitor::opt_string_view;
use crate::models::GpuInfo;
use crate::models::SystemInfo;
use crate::models::gpu_view;
use crate::monitor::MonitorConfig;
use crate::monitor::SensorBatch;
use crate::monitor::SystemMonitor;
use crate::monitor::normalized_config;
use crate::monitor::refresh_post;
use crate::monitor::refresh_state_post;
use crate::monitor::refreshed_view;
use crate::monitor::smart_cached;

verus! {

/// The application state: the monitor plus the last-emitted snapshot and
/// the baseline the next delta diffs against.
pub struct AppState {
    pub monitor: SystemMonitor,
    pub current_data: Option<SystemInfo>,
    pub last_data: Option<SystemInfo>,
}

impl AppState {
    /// Well-formedness of the held monitor.
    pub open spec fn wf(self) -> bool {
        self.monitor.wf()
    }

    /// What a batch must satisfy to be fed to this state: a timestamp after
    /// the last refresh and, when GPU polling is on, enough recorded GPU
    /// attempts for the policy.
    pub open spec fn accepts(self, batch: SensorBatch) -> bool {
        &&& batch.timestamp_ms > self.monitor.last_refresh_ms
        &&& self.monitor.config.gpu_enabled ==> batch.gpu_attempts@.len()
            >= self.monitor.config.retry_max_attempts
    }

    /// A fresh state over the given configuration, with empty history.
    pub fn new(config: MonitorConfig) -> (r: AppState)
        ensures
            r.wf(),
            r.monitor.config == normalized_config(config),
            r.monitor.last_refresh_ms == 0,
            r.current_data is None,
            r.last_data is None,
    {
        AppState { monitor: SystemMonitor::new(config), current_data: None, last_data: None }
    }

    /// Refreshes and returns a full snapshot, remembering it as the current
    /// data. The delta baseline is untouched.
    pub fn get_system_info(&mut self, batch: SensorBatch) -> (r: Result<SystemInfo, MonitorError>)
        requires
            old(self).wf(),
            old(self).accepts(batch),
        ensures
            final(self).wf(),
            refresh_post(old(self).monitor, final(self).monitor, batch, r),
            final(self).last_data == old(self).last_data,
            r is Ok ==> base_view(final(self).current_data) == Some(
                refreshed_view(old(self).monitor, batch),
            ),
            r is Err ==> final(self).current_data == old(self).current_data,
    {
        let r = self.monitor.refresh(batch);
        match r {
            Ok(s) => {
                self.current_data = Some(s.clone());
                Ok(s)
            },
            Err(e) => Err(e),
        }
    }

    /// Refreshes and returns an incremental update: a full delta when no
    /// baseline existed, otherwise the fields changed since the baseline.
    /// Both the current data and the baseline advance to the new snapshot.
    pub fn get_system_info_delta(&mut self, batch: SensorBatch) -> (r: Result<
        SystemInfoDelta,
        MonitorError,
    >)
        requires
            old(self).wf(),
            old(self).accepts(batch),
        ensures
            final(self).wf(),
            refresh_state_post(old(self).monitor, final(self).monitor, batch),
            batch.host is Err ==> {
                &&& r == Err::<SystemInfoDelta, MonitorError>(MonitorError::SensorUnavailable)
                &&& final(self).current_data == old(self).current_data
                &&& final(self).last_data == old(self).last_data
            },
            batch.host is Ok ==> {
                let sv = refreshed_view(old(self).monitor, batch);
                &&& (old(self).last_data is None ==> (r matches Ok(d) && d@
                    == SystemInfoDeltaView::Full(sv)))
                &&& (old(self).last_data matches Some(l) ==> (r matches Ok(d) && d@
                    == SystemInfoDeltaView::Partial(diff_view(l@, sv))))
                &&& base_view(final(self).current_data) == Some(sv)
                &&& base_view(final(self).last_data) == Some(sv)
            },
    {
        let r = self.monitor.refresh(batch);
        match r {
            Ok(s) => {
                let delta = match &self.last_data {
                    Some(l) => SystemInfoDelta::from_diff(l, &s),
                    None => SystemInfoDelta::full(s.clone()),
                };
                self.current_data = Some(s.clone());
                self.last_data = Some(s);
                Ok(delta)
            },
            Err(e) => Err(e),
        }
    }

    /// The last snapshot emitted through `get_system_info` or the delta
    /// path, without re-sampling.
    pub fn get_current_data(&self) -> (r: Option<SystemInfo>)
        ensures
            base_view(r) == base_view(self.current_data),
    {
        match &self.current_data {
            Some(s) => Some(s.clone()),
            None => None,
        }
    }

    /// Replaces the monitor's configuration; snapshot history and statistics
    /// stay.
    pub fn update_monitor_config(&mut self, config: MonitorConfig)
        requires
            old(self).wf(),
        ensures
            final(self).wf(),
            final(self).monitor.config == normalized_config(config),
            final(self).monitor.scheduler.stats == old(self).monitor.scheduler.stats,
            final(self).monitor.scheduler.ewma_volatility_permille == old(
                self,
            ).monitor.scheduler.ewma_volatility_permille,
            final(self).monitor.gpu_monitor.last_error == old(self).monitor.gpu_monitor.last_error,
            final(self).monitor.gpu_monitor.last_info == old(self).monitor.gpu_monitor.last_info,
            final(self).monitor.last_snapshot == old(self).monitor.last_snapshot,
            final(self).monitor.last_refresh_ms == old(self).monitor.last_refresh_ms,
            final(self).monitor.last_outcome == old(self).monitor.last_outcome,
            final(self).current_data == old(self).current_data,
            final(self).last_data == old(self).last_data,
    {
        self.monitor.update_config(config);
    }

    /// Smart refresh: answers from the cached snapshot when not enough time
    /// has elapsed, refreshes otherwise. The emitted-data slots stay.
    pub fn smart_refresh_system_info(&mut self, batch: SensorBatch) -> (r: Result<
        SystemInfo,
        MonitorError,
    >)
        requires
            old(self).wf(),
            old(self).accepts(batch),
        ensures
            final(self).wf(),
            final(self).current_data == old(self).current_data,
            final(self).last_data == old(self).last_data,
            smart_cached(old(self).monitor, batch) ==> {
                &&& final(self).monitor == old(self).monitor
                &&& (r matches Ok(s) && Some(s@) == base_view(old(self).monitor.last_snapshot))
            },
            !smart_cached(old(self).monitor, batch) ==> refresh_post(
                old(self).monitor,
                final(self).monitor,
                batch,
                r,
            ),
    {
        self.monitor.smart_refresh(batch)
    }

    /// The monitor's current GPU reading: nothing when GPU polling is
    /// disabled, like device absence; a query failure shows in the status
    /// diagnostic instead.
    pub fn get_gpu_info(&self) -> (r: Option<GpuInfo>)
        ensures
            self.monitor.gpu_monitor.enabled ==> gpu_view(r) == gpu_view(
                self.monitor.gpu_monitor.last_info,
            ),
            !self.monitor.gpu_monitor.enabled ==> r is None,
    {
        self.monitor.get_gpu_info()
    }

    /// GPU enablement and the last failure diagnostic; side-effect-free.
    pub fn get_gpu_monitor_status(&self) -> (r: (bool, Option<String>))
        ensures
            r.0 == self.monitor.gpu_monitor.enabled,
            opt_string_view(r.1) == opt_string_view(self.monitor.gpu_monitor.last_error),
    {
        self.monitor.get_gpu_monitor_status()
    }

    /// The known GPU device names; empty when disabled or none are known.
    pub fn get_gpu_names(&self) -> (r: Vec<String>)
        ensures
            self.monitor.gpu_monitor.enabled ==> r@.map_values(|s: String| s@) == names_of(
                gpu_view(self.monitor.gpu_monitor.last_info),
            ),
            !self.monitor.gpu_monitor.enabled ==> r@.len() == 0,
    {
        self.monitor.get_gpu_names()
    }

    /// The rendered detail line for one GPU device; `InvalidIndex` exactly
    /// when the index is at or past the known device count.
    pub fn get_detailed_gpu_info(&self, device_index: u32) -> (r: Result<String, MonitorError>)
        ensures
            match r {
                Ok(s) => {
                    &&& (device_index as int) < device_count_view(self.monitor.gpu_monitor)
                    &&& gpu_view(self.monitor.gpu_monitor.last_info) matches Some(g) && s@
                        == detail_view(g.devices[device_index as int])
                },
                Err(e) => {
                    &&& e == MonitorError::InvalidIndex
                    &&& (device_index as int) >= device_count_view(self.monitor.gpu_monitor)
                },
            },
    {
        self.monitor.get_detailed_gpu_info(device_index)
    }

    /// The suggested next sampling interval in milliseconds, always within
    /// the configured bounds.
    pub fn get_suggested_refresh_interval(&self) -> (r: u64)
        requires
            self.wf(),
        ensures
            r == suggested_view(self.monitor.scheduler),
            self.monitor.config.min_interval_ms <= r <= self.monitor.config.max_interval_ms,
    {
        self.monitor.suggested_refresh_interval()
    }

    /// A read-only snapshot of the cumulative refresh statistics.
    pub fn get_refresh_statistics(&self) -> (r: RefreshStatistics)
        ensures
            r == self.monitor.scheduler.stats,
    {
        self.monitor.get_refresh_statistics()
    }
}

} // verus!
