//! The adaptive sampling scheduler: exponentially-weighted moving averages of
//! snapshot volatility and refresh latency, cumulative statistics, and the
//! suggested next sampling interval.
//!
//! Volatility is a permille fraction (changed fields per thousand). All
//! averages use the fixed smoothing weight 1/5 for the new sample. The
//! suggested interval always lies within the configured bounds (the bounds
//! law is the `suggested_interval` contract).

use vstd::prelude::*;

verus! {

/// Volatility and utilization fractions are measured per thousand.
pub const VOLATILITY_SCALE: u64 = 1000;

/// Upper cap on a latency sample fed into the averages, in milliseconds.
pub const LATENCY_CAP_MS: u64 = 3_600_000;

/// Upper cap on a sampling interval, in milliseconds.
pub const INTERVAL_CAP_MS: u64 = 86_400_000;

/// Upper cap on the volatility sensitivity factor, in permille.
pub const SENSITIVITY_CAP_PERMILLE: u64 = 10_000;

/// Running counters over the monitor's lifetime. They only grow (saturating
/// at the integer bound) and are reset by nothing short of a restart.
#[derive(Clone, Copy, Debug, PartialEq, Eq, Structural)]
pub struct RefreshStatistics {
    /// Successful refreshes performed.
    pub total_refreshes: u64,
    /// Moving average of refresh latency, in milliseconds.
    pub avg_latency_ms: u64,
    /// Moving average of the interval actually elapsed between refreshes.
    pub avg_interval_ms: u64,
    /// GPU query attempts that were retried after a transient failure.
    pub retried_gpu_queries: u64,
    /// GPU queries that ended in failure after all retries.
    pub failed_gpu_queries: u64,
}

/// The all-zero counters a fresh monitor starts from.
pub open spec fn zero_stats() -> RefreshStatistics {
    RefreshStatistics {
        total_refreshes: 0,
        avg_latency_ms: 0,
        avg_interval_ms: 0,
        retried_gpu_queries: 0,
        failed_gpu_queries: 0,
    }
}

impl RefreshStatistics {
    /// The all-zero counters a fresh monitor starts from.
    pub fn new() -> (r: RefreshStatistics)
        ensures
            r == zero_stats(),
    {
        RefreshStatistics {
            total_refreshes: 0,
            avg_latency_ms: 0,
            avg_interval_ms: 0,
            retried_gpu_queries: 0,
            failed_gpu_queries: 0,
        }
    }
}

/// Saturating addition on counters.
pub open spec fn sat_add(a: u64, b: u64) -> u64 {
    if a + b > u64::MAX {
        u64::MAX
    } else {
        (a + b) as u64
    }
}

/// One moving-average step with weight 1/5 for the new sample.
pub open spec fn ewma_step(avg: u64, sample: u64) -> u64 {
    ((4 * avg + sample) / 5) as u64
}

/// The smaller of two values.
pub open spec fn min_u64(a: u64, b: u64) -> u64 {
    if a < b {
        a
    } else {
        b
    }
}

/// Tracks volatility and latency averages and computes the next suggested
/// sampling interval within configured bounds.
#[derive(Clone, Copy, Debug, PartialEq, Eq, Structural)]
pub struct AdaptiveScheduler {
    /// Lower bound for suggested intervals, in milliseconds.
    pub min_interval_ms: u64,
    /// Upper bound for suggested intervals, in milliseconds.
    pub max_interval_ms: u64,
    /// Scale factor applied to observed volatility, in permille.
    pub volatility_sensitivity_permille: u64,
    /// Moving average of snapshot volatility, in permille.
    pub ewma_volatility_permille: u64,
    /// Cumulative statistics; its latency average doubles as the latency
    /// floor for suggested intervals.
    pub stats: RefreshStatistics,
}

impl AdaptiveScheduler {
    /// Well-formedness: bounds are ordered and capped, and the averages lie
    /// within their scales.
    pub open spec fn wf(self) -> bool {
        &&& 1 <= self.min_interval_ms
        &&& self.min_interval_ms <= self.max_interval_ms
        &&& self.max_interval_ms <= INTERVAL_CAP_MS
        &&& self.volatility_sensitivity_permille <= SENSITIVITY_CAP_PERMILLE
        &&& self.ewma_volatility_permille <= VOLATILITY_SCALE
        &&& self.stats.avg_latency_ms <= LATENCY_CAP_MS
        &&& self.stats.avg_interval_ms <= INTERVAL_CAP_MS
    }

    /// A fresh scheduler over the given bounds and sensitivity.
    pub fn new(min_interval_ms: u64, max_interval_ms: u64, volatility_sensitivity_permille: u64) -> (r:
        AdaptiveScheduler)
        requires
            1 <= min_interval_ms <= max_interval_ms <= INTERVAL_CAP_MS,
            volatility_sensitivity_permille <= SENSITIVITY_CAP_PERMILLE,
        ensures
            r == (AdaptiveScheduler {
                min_interval_ms,
                max_interval_ms,
                volatility_sensitivity_permille,
                ewma_volatility_permille: 0,
                stats: RefreshStatistics {
                    total_refreshes: 0,
                    avg_latency_ms: 0,
                    avg_interval_ms: 0,
                    retried_gpu_queries: 0,
                    failed_gpu_queries: 0,
                },
            }),
            r.wf(),
    {
        AdaptiveScheduler {
            min_interval_ms,
            max_interval_ms,
            volatility_sensitivity_permille,
            ewma_volatility_permille: 0,
            stats: RefreshStatistics::new(),
        }
    }
}

/// The scheduler after recording one refresh's volatility and latency:
/// both averages step, and one refresh is counted.
pub open spec fn record_view(s: AdaptiveScheduler, delta_magnitude_permille: u64, latency_ms: u64) -> AdaptiveScheduler {
    AdaptiveScheduler {
        ewma_volatility_permille: ewma_step(
            s.ewma_volatility_permille,
            min_u64(delta_magnitude_permille, VOLATILITY_SCALE),
        ),
        stats: RefreshStatistics {
            total_refreshes: sat_add(s.stats.total_refreshes, 1),
            avg_latency_ms: ewma_step(s.stats.avg_latency_ms, min_u64(latency_ms, LATENCY_CAP_MS)),
            ..s.stats
        },
        ..s
    }
}

/// The scheduler after recording a first refresh, for which no volatility
/// exists yet: only the latency average steps, and the refresh is counted.
pub open spec fn record_latency_view(s: AdaptiveScheduler, latency_ms: u64) -> AdaptiveScheduler {
    AdaptiveScheduler {
        stats: RefreshStatistics {
            total_refreshes: sat_add(s.stats.total_refreshes, 1),
            avg_latency_ms: ewma_step(s.stats.avg_latency_ms, min_u64(latency_ms, LATENCY_CAP_MS)),
            ..s.stats
        },
        ..s
    }
}

/// The scheduler after observing the interval actually elapsed between two
/// successive refreshes.
pub open spec fn note_interval_view(s: AdaptiveScheduler, interval_ms: u64) -> AdaptiveScheduler {
    AdaptiveScheduler {
        stats: RefreshStatistics {
            avg_interval_ms: ewma_step(s.stats.avg_interval_ms, min_u64(interval_ms, INTERVAL_CAP_MS)),
            ..s.stats
        },
        ..s
    }
}

/// The scheduler after one GPU query round with the given retry count and
/// final failure flag.
pub open spec fn note_gpu_view(s: AdaptiveScheduler, retries: u32, failed: bool) -> AdaptiveScheduler {
    AdaptiveScheduler {
        stats: RefreshStatistics {
            retried_gpu_queries: sat_add(s.stats.retried_gpu_queries, retries as u64),
            failed_gpu_queries: if failed {
                sat_add(s.stats.failed_gpu_queries, 1)
            } else {
                s.stats.failed_gpu_queries
            },
            ..s.stats
        },
        ..s
    }
}

/// Observed volatility scaled by the sensitivity factor, saturated at the
/// volatility scale.
pub open spec fn scaled_volatility(s: AdaptiveScheduler) -> u64 {
    min_u64(
        ((s.ewma_volatility_permille * s.volatility_sensitivity_permille) / (
        VOLATILITY_SCALE as int)) as u64,
        VOLATILITY_SCALE,
    )
}

/// The suggested next sampling interval: high volatility pulls it toward the
/// lower bound, low volatility toward the upper; the recent latency average
/// is a floor; the result is clamped into the configured bounds.
pub open spec fn suggested_view(s: AdaptiveScheduler) -> u64 {
    let span = (s.max_interval_ms - s.min_interval_ms) as u64;
    let cut = ((scaled_volatility(s) * span) / (VOLATILITY_SCALE as int)) as u64;
    let lin = (s.max_interval_ms - cut) as u64;
    let cand = if s.stats.avg_latency_ms > lin {
        s.stats.avg_latency_ms
    } else {
        lin
    };
    if cand > s.max_interval_ms {
        s.max_interval_ms
    } else {
        cand
    }
}

impl AdaptiveScheduler {
    /// Records one refresh's observed volatility (changed fields, permille)
    /// and latency, stepping both moving averages and counting the refresh.
    pub fn record(&mut self, delta_magnitude_permille: u64, latency_ms: u64)
        requires
            old(self).wf(),
        ensures
            *final(self) == record_view(*old(self), delta_magnitude_permille, latency_ms),
            final(self).wf(),
    {
        let mag = if delta_magnitude_permille < VOLATILITY_SCALE {
            delta_magnitude_permille
        } else {
            VOLATILITY_SCALE
        };
        let lat = if latency_ms < LATENCY_CAP_MS {
            latency_ms
        } else {
            LATENCY_CAP_MS
        };
        self.ewma_volatility_permille = (4 * self.ewma_volatility_permille + mag) / 5;
        self.stats.avg_latency_ms = (4 * self.stats.avg_latency_ms + lat) / 5;
        self.stats.total_refreshes = if self.stats.total_refreshes < u64::MAX {
            self.stats.total_refreshes + 1
        } else {
            u64::MAX
        };
    }

    /// Records a first refresh, for which no volatility exists yet.
    pub fn record_latency_only(&mut self, latency_ms: u64)
        requires
            old(self).wf(),
        ensures
            *final(self) == record_latency_view(*old(self), latency_ms),
            final(self).wf(),
    {
        let lat = if latency_ms < LATENCY_CAP_MS {
            latency_ms
        } else {
            LATENCY_CAP_MS
        };
        self.stats.avg_latency_ms = (4 * self.stats.avg_latency_ms + lat) / 5;
        self.stats.total_refreshes = if self.stats.total_refreshes < u64::MAX {
            self.stats.total_refreshes + 1
        } else {
            u64::MAX
        };
    }

    /// Records the interval actually elapsed between two refreshes.
    pub fn note_interval(&mut self, interval_ms: u64)
        requires
            old(self).wf(),
        ensures
            *final(self) == note_interval_view(*old(self), interval_ms),
            final(self).wf(),
    {
        let iv = if interval_ms < INTERVAL_CAP_MS {
            interval_ms
        } else {
            INTERVAL_CAP_MS
        };
        self.stats.avg_interval_ms = (4 * self.stats.avg_interval_ms + iv) / 5;
    }

    /// Records one GPU query round: how many retries it took and whether it
    /// ended in failure.
    pub fn note_gpu(&mut self, retries: u32, failed: bool)
        requires
            old(self).wf(),
        ensures
            *final(self) == note_gpu_view(*old(self), retries, failed),
            final(self).wf(),
    {
        self.stats.retried_gpu_queries = if self.stats.retried_gpu_queries
            <= u64::MAX - retries as u64 {
            self.stats.retried_gpu_queries + retries as u64
        } else {
            u64::MAX
        };
        if failed {
            self.stats.failed_gpu_queries = if self.stats.failed_gpu_queries < u64::MAX {
                self.stats.failed_gpu_queries + 1
            } else {
                u64::MAX
            };
        }
    }

    /// The suggested next sampling interval, always within the configured
    /// bounds, whatever volatility and latency were observed.
    pub fn suggested_interval(&self) -> (r: u64)
        requires
            self.wf(),
        ensures
            r == suggested_view(*self),
            self.min_interval_ms <= r <= self.max_interval_ms,
    {
        let span = self.max_interval_ms - self.min_interval_ms;
        proof {
            assert(self.ewma_volatility_permille * self.volatility_sensitivity_permille
                <= VOLATILITY_SCALE * SENSITIVITY_CAP_PERMILLE) by (nonlinear_arith)
                requires
                    self.ewma_volatility_permille <= VOLATILITY_SCALE,
                    self.volatility_sensitivity_permille <= SENSITIVITY_CAP_PERMILLE,
            ;
        }
        let raw_scaled = (self.ewma_volatility_permille * self.volatility_sensitivity_permille)
            / VOLATILITY_SCALE;
        let scaled = if raw_scaled < VOLATILITY_SCALE {
            raw_scaled
        } else {
            VOLATILITY_SCALE
        };
        proof {
            assert(scaled as int * span as int <= VOLATILITY_SCALE as int * span as int)
                by (nonlinear_arith)
                requires
                    scaled <= VOLATILITY_SCALE,
                    span >= 0,
            ;
            assert((scaled as int * span as int) / (VOLATILITY_SCALE as int) <= span as int);
        }
        let cut = (scaled * span) / VOLATILITY_SCALE;
        let lin = self.max_interval_ms - cut;
        let cand = if self.stats.avg_latency_ms > lin {
            self.stats.avg_latency_ms
        } else {
            lin
        };
        if cand > self.max_interval_ms {
            self.max_interval_ms
        } else {
            cand
        }
    }

    /// A read-only snapshot of the cumulative counters.
    pub fn statistics(&self) -> (r: RefreshStatistics)
        ensures
            r == self.stats,
    {
        self.stats
    }
}

} // verus!
