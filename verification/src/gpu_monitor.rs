//! GPU monitoring: enablement state, the last successful reading, the last
//! diagnostic message, device enumeration and per-device detail rendering.
//!
//! A GPU query runs through the retry policy. Absence of devices is a valid
//! state (`Ok(None)`), distinct from a query failure, which is recorded as a
//! diagnostic and degrades the reading rather than aborting a refresh.

use vstd::prelude::*;
use crate::errors::MonitorError;
use crate::errors::SensorError;
use crate::models::GpuDeviceView;
use crate::models::GpuInfo;
use crate::models::GpuInfoView;
use crate::models::gpu_view;
use crate::retry::RetryPolicy;
use crate::retry::retry_count;
use crate::retry::retry_result;
use crate::text::dec_seq;
use crate::text::u64_to_dec;

verus! {

/// The view of an optional diagnostic message.
pub open spec fn opt_string_view(s: Option<String>) -> Option<Seq<char>> {
    match s {
        Some(m) => Some(m@),
        None => None,
    }
}

/// The diagnostic text recorded for a failed GPU query.
pub open spec fn error_text_view(e: SensorError) -> Seq<char> {
    match e {
        SensorError::Transient => "gpu query failed transiently after retries"@,
        SensorError::Permanent => "gpu sensor unavailable"@,
    }
}

/// The rendered detail line for one GPU device.
pub open spec fn detail_view(d: GpuDeviceView) -> Seq<char> {
    d.name + ": utilization "@ + dec_seq(d.utilization_permille as int) + "/1000, memory "@
        + dec_seq(d.memory_used_mb as int) + "/"@ + dec_seq(d.memory_total_mb as int)
        + " MB, temperature "@ + dec_seq(d.temperature_c as int) + " C"@
}

/// The device names of an optional GPU reading.
pub open spec fn names_of(g: Option<GpuInfoView>) -> Seq<Seq<char>> {
    match g {
        Some(info) => info.devices.map_values(|d: GpuDeviceView| d.name),
        None => Seq::empty(),
    }
}

/// Owns GPU enablement state, the most recent reading, and the most recent
/// failure diagnostic. `last_error` is written only by `poll`, which runs
/// under the monitor's exclusive access; `status` reads it freely.
pub struct GpuMonitor {
    pub enabled: bool,
    pub last_error: Option<String>,
    pub last_info: Option<GpuInfo>,
}

/// How many devices the monitor currently knows: zero when disabled or when
/// no reading with devices is held.
pub open spec fn device_count_view(m: GpuMonitor) -> int {
    if !m.enabled {
        0
    } else {
        match gpu_view(m.last_info) {
            Some(g) => g.devices.len() as int,
            None => 0,
        }
    }
}

/// What one `poll` does: the retry policy's result decides the returned
/// value, the stored reading and the diagnostic; enablement never changes.
pub open spec fn poll_post(
    pre: GpuMonitor,
    post: GpuMonitor,
    s: Seq<Result<GpuInfo, SensorError>>,
    max: int,
    r: (Result<Option<GpuInfo>, SensorError>, u32),
) -> bool {
    &&& post.enabled == pre.enabled
    &&& r.1 == retry_count(s, max)
    &&& match retry_result(s, max) {
        Ok(info) => {
            &&& post.last_error is None
            &&& if info@.devices.len() == 0 {
                &&& r.0 == Ok::<Option<GpuInfo>, SensorError>(None)
                &&& post.last_info is None
            } else {
                &&& (r.0 matches Ok(og) && gpu_view(og) == Some(info@))
                &&& gpu_view(post.last_info) == Some(info@)
            }
        },
        Err(e) => {
            &&& r.0 == Err::<Option<GpuInfo>, SensorError>(e)
            &&& opt_string_view(post.last_error) == Some(error_text_view(e))
            &&& gpu_view(post.last_info) == gpu_view(pre.last_info)
        },
    }
}

impl GpuMonitor {
    /// A fresh monitor with no reading and no diagnostic.
    pub fn new(enabled: bool) -> (r: GpuMonitor)
        ensures
            r.enabled == enabled,
            r.last_error is None,
            r.last_info is None,
    {
        GpuMonitor { enabled, last_error: None, last_info: None }
    }

    /// Turns GPU polling on or off; the held reading and diagnostic stay.
    pub fn set_enabled(&mut self, enabled: bool)
        ensures
            final(self).enabled == enabled,
            final(self).last_error == old(self).last_error,
            final(self).last_info == old(self).last_info,
    {
        self.enabled = enabled;
    }

    /// Queries the GPU sensor through the retry policy, on the recorded
    /// outcomes of its successive attempts. Success with zero devices is
    /// `Ok(None)` and costs no retry when it is the first outcome; failure
    /// records a diagnostic and keeps the previous reading.
    pub fn poll(&mut self, policy: &RetryPolicy, attempts: Vec<Result<GpuInfo, SensorError>>) -> (r: (
        Result<Option<GpuInfo>, SensorError>,
        u32,
    ))
        requires
            old(self).enabled,
            1 <= policy.max_attempts,
            attempts@.len() >= policy.max_attempts,
        ensures
            poll_post(*old(self), *final(self), attempts@, policy.max_attempts as int, r),
            r.1 <= policy.max_attempts - 1,
    {
        let (res, retries) = policy.execute(attempts);
        match res {
            Ok(info) => {
                self.last_error = None;
                if info.devices.len() == 0 {
                    self.last_info = None;
                    (Ok(None), retries)
                } else {
                    self.last_info = Some(info.clone());
                    (Ok(Some(info)), retries)
                }
            },
            Err(e) => {
                let text = match e {
                    SensorError::Transient => String::from_str(
                        "gpu query failed transiently after retries",
                    ),
                    SensorError::Permanent => String::from_str("gpu sensor unavailable"),
                };
                self.last_error = Some(text);
                (Err(e), retries)
            },
        }
    }

    /// A side-effect-free diagnostic read: enablement and the last failure.
    pub fn status(&self) -> (r: (bool, Option<String>))
        ensures
            r.0 == self.enabled,
            opt_string_view(r.1) == opt_string_view(self.last_error),
    {
        let err = match &self.last_error {
            Some(m) => Some(m.clone()),
            None => None,
        };
        (self.enabled, err)
    }

    /// The known device names; empty when disabled or when no devices are
    /// known.
    pub fn device_names(&self) -> (r: Vec<String>)
        ensures
            self.enabled ==> r@.map_values(|s: String| s@) == names_of(gpu_view(self.last_info)),
            !self.enabled ==> r@.len() == 0,
    {
        if !self.enabled {
            return Vec::new();
        }
        match &self.last_info {
            None => {
                let r = Vec::new();
                proof {
                    assert(r@.map_values(|s: String| s@) =~= names_of(gpu_view(self.last_info)));
                }
                r
            },
            Some(info) => {
                let mut out: Vec<String> = Vec::new();
                let mut i: usize = 0;
                while i < info.devices.len()
                    invariant
                        i <= info.devices@.len(),
                        out@.len() == i,
                        forall|j: int| 0 <= j < i ==> out@[j]@ == info.devices@[j]@.name,
                    decreases info.devices@.len() - i,
                {
                    out.push(info.devices[i].name.clone());
                    i = i + 1;
                }
                proof {
                    assert(out@.map_values(|s: String| s@) =~= names_of(gpu_view(self.last_info)));
                }
                out
            },
        }
    }

    /// How many devices the monitor currently knows.
    pub fn device_count(&self) -> (r: usize)
        ensures
            r == device_count_view(*self),
    {
        if !self.enabled {
            return 0;
        }
        match &self.last_info {
            Some(info) => info.devices.len(),
            None => 0,
        }
    }

    /// The rendered detail line for the device at `index`. Fails with
    /// `InvalidIndex` exactly when `index` is at or past the device count.
    pub fn device_detail(&self, index: u32) -> (r: Result<String, MonitorError>)
        ensures
            match r {
                Ok(s) => {
                    &&& (index as int) < device_count_view(*self)
                    &&& gpu_view(self.last_info) matches Some(g) && s@ == detail_view(
                        g.devices[index as int],
                    )
                },
                Err(e) => {
                    &&& e == MonitorError::InvalidIndex
                    &&& (index as int) >= device_count_view(*self)
                },
            },
    {
        if !self.enabled {
            return Err(MonitorError::InvalidIndex);
        }
        match &self.last_info {
            None => Err(MonitorError::InvalidIndex),
            Some(info) => {
                if (index as u64) >= (info.devices.len() as u64) {
                    return Err(MonitorError::InvalidIndex);
                }
                let d = &info.devices[index as usize];
                let line = d.name.clone().concat(": utilization ").concat(
                    u64_to_dec(d.utilization_permille as u64).as_str(),
                ).concat("/1000, memory ").concat(u64_to_dec(d.memory_used_mb).as_str()).concat(
                    "/",
                ).concat(u64_to_dec(d.memory_total_mb).as_str()).concat(
                    " MB, temperature ",
                ).concat(u64_to_dec(d.temperature_c as u64).as_str()).concat(" C");
                proof {
                    assert(line@ =~= detail_view(
                        gpu_view(self.last_info)->Some_0.devices[index as int],
                    ));
                }
                Ok(line)
            },
        }
    }
}

} // verus!
