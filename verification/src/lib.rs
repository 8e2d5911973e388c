//! A host-telemetry monitoring engine: adaptive sampling, snapshot diffing,
//! bounded retry around unreliable sensors, and a serialized state container.
//!
//! Sensor readings enter as plain values (a `SensorBatch`); the engine decides
//! what to retry, how to degrade when the GPU sensor fails, which fields of a
//! snapshot changed, and how fast to sample next. All of that is verified.

pub mod adaptive_refresh;
pub mod delta;
pub mod errors;
pub mod gpu_monitor;
pub mod models;
pub mod monitor;
pub mod retry;
pub mod state;
pub mod text;
