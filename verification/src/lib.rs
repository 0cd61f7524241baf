//! Hardware telemetry snapshots: CPU and GPU identity, capability and
//! temperature classification.
//!
//! The crate holds the decision logic of a telemetry backend: heuristic
//! classification of hardware model strings, first-match selection over
//! sensor and registry readings, and sentinel-based assembly of snapshot
//! records. Every function here is a pure function of the plain values it
//! is handed; the operating-system reads that produce those values live in
//! the surrounding application.

pub mod cpu;
pub mod gpu;
pub mod render;
pub mod sensors;
pub mod text;
