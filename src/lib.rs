//! Hardware telemetry for an on-screen overlay: per-poll snapshots of CPU,
//! memory, GPU, disk and network activity, assembled from independent probes
//! that may each be absent or fail on their own.

pub mod config;
pub mod gpu;
pub mod stats;
pub mod laws;
