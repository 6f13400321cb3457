//! The adapter's error taxonomy.

use vstd::prelude::*;
use crate::domains::ClockDomain;

verus! {

/// The telemetry query that failed, for `AdapterError::QueryFailure`.
#[derive(Clone, Copy, Debug, PartialEq, Eq, Structural)]
pub enum TelemetryField {
    /// Resolving the device handle by index.
    DeviceHandle,
    /// Power draw in milliwatts.
    Power,
    /// Current clock speed of one domain.
    Clock(ClockDomain),
    /// Maximum clock speed of one domain.
    MaxClock(ClockDomain),
    /// Temperature sensor reading.
    Temperature,
    /// Memory free/used/total byte counts.
    MemoryInfo,
    /// Fan speed percentage.
    FanSpeed,
    /// GPU and memory utilization percentages.
    Utilization,
    /// The currently applied core clock offset.
    CoreOffset,
    /// The currently applied memory clock offset.
    MemOffset,
    /// The device name string.
    Name,
    /// The installed driver version string.
    DriverVersion,
}

/// Every way an adapter operation can fail.
#[derive(Clone, Copy, Debug, PartialEq, Eq, Structural)]
pub enum AdapterError {
    /// The hardware-management library could not be initialized; the
    /// process cannot proceed.
    InitializationFailure,
    /// A single telemetry read failed; the snapshot is left unchanged.
    QueryFailure(TelemetryField),
    /// Offset text failed signed-integer parsing.
    InvalidOffset,
    /// A write was attempted without elevated privilege; no hardware state
    /// was changed.
    PermissionDenied,
    /// A foreign write call returned this non-zero status. A rejected
    /// core-offset write means the memory-offset write was never
    /// attempted; a rejected memory-offset write means the core offset is
    /// still applied.
    HardwareRejected(u32),
}

/// A single failed telemetry read, as reported by a telemetry source.
#[derive(Clone, Copy, Debug, PartialEq, Eq, Structural)]
pub struct QueryFault;

} // verus!
