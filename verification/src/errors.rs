//! Error taxonomy: sensor-level classification and caller-facing errors.

use vstd::prelude::*;

verus! {

/// Classification of one failed sensor query.
///
/// A `Transient` failure may succeed on retry; a `Permanent` one (hardware or
/// driver absent) never will, and the retry policy must not retry it.
#[derive(Clone, Copy, Debug, PartialEq, Eq, Structural)]
pub enum SensorError {
    Transient,
    Permanent,
}

/// Errors surfaced to callers of the monitor.
#[derive(Clone, Copy, Debug, PartialEq, Eq, Structural)]
pub enum MonitorError {
    /// A mandatory (non-GPU) sensor failed; the refresh produced no snapshot.
    SensorUnavailable,
    /// A GPU detail query named a device index at or past the device count.
    InvalidIndex,
}

} // verus!
