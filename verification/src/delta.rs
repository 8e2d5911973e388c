//! Snapshot diffing: a structural field-by-field comparison producing either
//! a full snapshot (no baseline existed) or a minimal changed-fields patch.
//!
//! The central law, proved below, is the round trip: applying `from_diff(a, b)`
//! to `a` reconstructs `b` exactly.

use vstd::prelude::*;
use crate::models::DiskInfo;
use crate::models::DiskInfoView;
use crate::models::GpuInfoView;
use crate::models::NetworkInfo;
use crate::models::NetworkInfoView;
use crate::models::SystemInfo;
use crate::models::SystemInfoView;
use crate::models::clone_disks;
use crate::models::clone_gpu;
use crate::models::clone_networks;
use crate::models::disks_eq;
use crate::models::gpu_opt_eq;
use crate::models::gpu_view;
use crate::models::networks_eq;
use crate::models::GpuInfo;

verus! {

/// The changed fields of a snapshot relative to a baseline. `None` means the
/// field did not change. The timestamp is always carried: it is metadata of
/// the new snapshot, not a compared field.
#[derive(Debug)]
pub struct PartialDelta {
    pub timestamp_ms: u64,
    pub cpu_usage_permille: Option<u32>,
    pub memory_total_mb: Option<u64>,
    pub memory_used_mb: Option<u64>,
    pub disks: Option<Vec<DiskInfo>>,
    pub networks: Option<Vec<NetworkInfo>>,
    pub gpu: Option<Option<GpuInfo>>,
}

#[verifier::ext_equal]
pub ghost struct PartialDeltaView {
    pub timestamp_ms: u64,
    pub cpu_usage_permille: Option<u32>,
    pub memory_total_mb: Option<u64>,
    pub memory_used_mb: Option<u64>,
    pub disks: Option<Seq<DiskInfoView>>,
    pub networks: Option<Seq<NetworkInfoView>>,
    pub gpu: Option<Option<GpuInfoView>>,
}

/// The view of an optional disk list carried by a delta.
pub open spec fn opt_disks_view(d: Option<Vec<DiskInfo>>) -> Option<Seq<DiskInfoView>> {
    match d {
        Some(v) => Some(v@.map_values(|x: DiskInfo| x@)),
        None => None,
    }
}

/// The view of an optional network list carried by a delta.
pub open spec fn opt_networks_view(d: Option<Vec<NetworkInfo>>) -> Option<
    Seq<NetworkInfoView>,
> {
    match d {
        Some(v) => Some(v@.map_values(|x: NetworkInfo| x@)),
        None => None,
    }
}

/// The view of an optional GPU slot carried by a delta.
pub open spec fn opt_gpu_view(d: Option<Option<GpuInfo>>) -> Option<Option<GpuInfoView>> {
    match d {
        Some(g) => Some(gpu_view(g)),
        None => None,
    }
}

impl View for PartialDelta {
    type V = PartialDeltaView;

    open spec fn view(&self) -> PartialDeltaView {
        PartialDeltaView {
            timestamp_ms: self.timestamp_ms,
            cpu_usage_permille: self.cpu_usage_permille,
            memory_total_mb: self.memory_total_mb,
            memory_used_mb: self.memory_used_mb,
            disks: opt_disks_view(self.disks),
            networks: opt_networks_view(self.networks),
            gpu: opt_gpu_view(self.gpu),
        }
    }
}

/// An incremental update: a whole snapshot when no baseline existed, or the
/// changed fields against the previous snapshot.
#[derive(Debug)]
pub enum SystemInfoDelta {
    Full(SystemInfo),
    Partial(PartialDelta),
}

#[verifier::ext_equal]
pub ghost enum SystemInfoDeltaView {
    Full(SystemInfoView),
    Partial(PartialDeltaView),
}

impl View for SystemInfoDelta {
    type V = SystemInfoDeltaView;

    open spec fn view(&self) -> SystemInfoDeltaView {
        match self {
            SystemInfoDelta::Full(s) => SystemInfoDeltaView::Full(s@),
            SystemInfoDelta::Partial(p) => SystemInfoDeltaView::Partial(p@),
        }
    }
}

/// The structural diff of two snapshot views: each field of `b` is recorded
/// exactly when it differs from `a`'s; the timestamp is always carried.
pub open spec fn diff_view(a: SystemInfoView, b: SystemInfoView) -> PartialDeltaView {
    PartialDeltaView {
        timestamp_ms: b.timestamp_ms,
        cpu_usage_permille: if b.cpu_usage_permille == a.cpu_usage_permille {
            None
        } else {
            Some(b.cpu_usage_permille)
        },
        memory_total_mb: if b.memory_total_mb == a.memory_total_mb {
            None
        } else {
            Some(b.memory_total_mb)
        },
        memory_used_mb: if b.memory_used_mb == a.memory_used_mb {
            None
        } else {
            Some(b.memory_used_mb)
        },
        disks: if b.disks == a.disks {
            None
        } else {
            Some(b.disks)
        },
        networks: if b.networks == a.networks {
            None
        } else {
            Some(b.networks)
        },
        gpu: if b.gpu == a.gpu {
            None
        } else {
            Some(b.gpu)
        },
    }
}

/// Applying a partial delta to a baseline: recorded fields overwrite the
/// baseline's, unrecorded fields keep it; the timestamp is taken from the
/// delta.
pub open spec fn apply_view(base: SystemInfoView, d: PartialDeltaView) -> SystemInfoView {
    SystemInfoView {
        timestamp_ms: d.timestamp_ms,
        cpu_usage_permille: match d.cpu_usage_permille {
            Some(v) => v,
            None => base.cpu_usage_permille,
        },
        memory_total_mb: match d.memory_total_mb {
            Some(v) => v,
            None => base.memory_total_mb,
        },
        memory_used_mb: match d.memory_used_mb {
            Some(v) => v,
            None => base.memory_used_mb,
        },
        disks: match d.disks {
            Some(v) => v,
            None => base.disks,
        },
        networks: match d.networks {
            Some(v) => v,
            None => base.networks,
        },
        gpu: match d.gpu {
            Some(v) => v,
            None => base.gpu,
        },
    }
}

/// Applying a delta to an optional baseline: a full delta stands on its own;
/// a partial one needs a baseline and yields nothing without one.
pub open spec fn apply_delta_view(
    base: Option<SystemInfoView>,
    d: SystemInfoDeltaView,
) -> Option<SystemInfoView> {
    match d {
        SystemInfoDeltaView::Full(s) => Some(s),
        SystemInfoDeltaView::Partial(p) => match base {
            Some(b) => Some(apply_view(b, p)),
            None => None,
        },
    }
}

/// Round trip: diffing two snapshots and applying the result to the first
/// reconstructs the second exactly, for every pair of snapshot views.
pub proof fn lemma_diff_round_trip(a: SystemInfoView, b: SystemInfoView)
    ensures
        apply_view(a, diff_view(a, b)) == b,
{
    assert(apply_view(a, diff_view(a, b)) =~= b);
}

/// A full delta applied to an empty baseline yields exactly the wrapped
/// snapshot, for every snapshot view.
pub proof fn lemma_full_on_empty_baseline(s: SystemInfoView)
    ensures
        apply_delta_view(None, SystemInfoDeltaView::Full(s)) == Some(s),
{
}

/// The number of recorded (changed) fields in a partial delta, out of the six
/// compared fields. Volatility is this count as a fraction.
pub open spec fn changed_field_count(d: PartialDeltaView) -> int {
    (if d.cpu_usage_permille is Some {
        1int
    } else {
        0int
    }) + (if d.memory_total_mb is Some {
        1int
    } else {
        0int
    }) + (if d.memory_used_mb is Some {
        1int
    } else {
        0int
    }) + (if d.disks is Some {
        1int
    } else {
        0int
    }) + (if d.networks is Some {
        1int
    } else {
        0int
    }) + (if d.gpu is Some {
        1int
    } else {
        0int
    })
}

impl SystemInfoDelta {
    /// Wraps an entire snapshot; used when no baseline exists yet.
    pub fn full(snapshot: SystemInfo) -> (r: SystemInfoDelta)
        ensures
            r@ == SystemInfoDeltaView::Full(snapshot@),
    {
        SystemInfoDelta::Full(snapshot)
    }

    /// Field-by-field structural comparison of two snapshots. Numeric fields
    /// compare exactly; lists and the optional GPU substructure compare by
    /// value. Only changed fields are recorded.
    pub fn from_diff(previous: &SystemInfo, current: &SystemInfo) -> (r: SystemInfoDelta)
        ensures
            r@ == SystemInfoDeltaView::Partial(diff_view(previous@, current@)),
    {
        let delta = PartialDelta {
            timestamp_ms: current.timestamp_ms,
            cpu_usage_permille: if current.cpu_usage_permille == previous.cpu_usage_permille {
                None
            } else {
                Some(current.cpu_usage_permille)
            },
            memory_total_mb: if current.memory_total_mb == previous.memory_total_mb {
                None
            } else {
                Some(current.memory_total_mb)
            },
            memory_used_mb: if current.memory_used_mb == previous.memory_used_mb {
                None
            } else {
                Some(current.memory_used_mb)
            },
            disks: if disks_eq(&current.disks, &previous.disks) {
                None
            } else {
                Some(clone_disks(&current.disks))
            },
            networks: if networks_eq(&current.networks, &previous.networks) {
                None
            } else {
                Some(clone_networks(&current.networks))
            },
            gpu: if gpu_opt_eq(&current.gpu, &previous.gpu) {
                None
            } else {
                Some(clone_gpu(&current.gpu))
            },
        };
        proof {
            assert(delta@ =~= diff_view(previous@, current@));
        }
        SystemInfoDelta::Partial(delta)
    }

    /// The number of changed fields this delta records, out of the six
    /// compared fields; a full delta counts as all six changed.
    pub fn changed_fields(&self) -> (r: u32)
        ensures
            r <= 6,
            self@ matches SystemInfoDeltaView::Partial(p) ==> r == changed_field_count(p),
            self@ is Full ==> r == 6,
    {
        match self {
            SystemInfoDelta::Full(_) => 6,
            SystemInfoDelta::Partial(p) => {
                let mut count: u32 = 0;
                if p.cpu_usage_permille.is_some() {
                    count = count + 1;
                }
                if p.memory_total_mb.is_some() {
                    count = count + 1;
                }
                if p.memory_used_mb.is_some() {
                    count = count + 1;
                }
                if p.disks.is_some() {
                    count = count + 1;
                }
                if p.networks.is_some() {
                    count = count + 1;
                }
                if p.gpu.is_some() {
                    count = count + 1;
                }
                count
            },
        }
    }
}

/// Applies a delta to an optional baseline, the executable counterpart of
/// `apply_delta_view`. Returns `None` exactly when a partial delta meets an
/// empty baseline.
pub fn apply_delta(base: &Option<SystemInfo>, d: &SystemInfoDelta) -> (r: Option<SystemInfo>)
    ensures
        match r {
            Some(s) => apply_delta_view(base_view(*base), d@) == Some(s@),
            None => apply_delta_view(base_view(*base), d@) is None,
        },
{
    match d {
        SystemInfoDelta::Full(s) => Some(s.clone()),
        SystemInfoDelta::Partial(p) => match base {
            Some(b) => {
                let s = SystemInfo {
                    timestamp_ms: p.timestamp_ms,
                    cpu_usage_permille: match p.cpu_usage_permille {
                        Some(v) => v,
                        None => b.cpu_usage_permille,
                    },
                    memory_total_mb: match p.memory_total_mb {
                        Some(v) => v,
                        None => b.memory_total_mb,
                    },
                    memory_used_mb: match p.memory_used_mb {
                        Some(v) => v,
                        None => b.memory_used_mb,
                    },
                    disks: match &p.disks {
                        Some(v) => clone_disks(v),
                        None => clone_disks(&b.disks),
                    },
                    networks: match &p.networks {
                        Some(v) => clone_networks(v),
                        None => clone_networks(&b.networks),
                    },
                    gpu: match &p.gpu {
                        Some(v) => clone_gpu(v),
                        None => clone_gpu(&b.gpu),
                    },
                };
                proof {
                    assert(s@ =~= apply_view(b@, p@));
                }
                Some(s)
            },
            None => None,
        },
    }
}

/// The view of an optional baseline snapshot.
pub open spec fn base_view(base: Option<SystemInfo>) -> Option<SystemInfoView> {
    match base {
        Some(s) => Some(s@),
        None => None,
    }
}

} // verus!
