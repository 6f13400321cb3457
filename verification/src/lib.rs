//! Telemetry and overclocking adapter for a single discrete GPU.
//!
//! The adapter owns a handle to the vendor hardware-management library,
//! exposes a polled telemetry snapshot (power, temperature, memory, fan,
//! utilization, per-domain clocks), and mediates privileged clock-offset
//! writes behind an explicit privilege check with a short-circuiting
//! two-step write sequence.

pub mod domains;
pub mod error;
pub mod gpu;
pub mod numfmt;
pub mod offsets;
pub mod parse;
pub mod snapshot;
pub mod source;
pub mod units;
