//! The device adapter: the one owner of the hardware-management library
//! handle.
//!
//! Every foreign call is confined to a small trusted wrapper; everything
//! around the calls — gathering order, unit scaling, snapshot overwrite,
//! the privilege gate and the write sequence — is verified. The device
//! handle is resolved by fixed index 0 on each operation, as the library
//! context allows.

use vstd::prelude::*;
use crate::domains::{domain_index, ClockDomain};
use crate::error::{AdapterError, QueryFault, TelemetryField};
use crate::offsets::{apply_offsets, OffsetDomain, OffsetSink, WriteRecord};
use crate::parse::is_offset_text;
use crate::snapshot::{zero_readings, Readings, Snapshot};
use crate::source::{
    refresh_from_source, MemoryBytes, TelemetrySource, UtilizationPct,
};

verus! {

#[verifier::external_type_specification]
#[verifier::external_body]
pub struct ExNvml(nvml_wrapper::Nvml);

#[verifier::external_type_specification]
#[verifier::external_body]
pub struct ExDevice<'a>(nvml_wrapper::Device<'a>);

#[verifier::external_type_specification]
#[verifier::external_body]
pub struct ExNvmlError(nvml_wrapper::error::NvmlError);

/// Relies on nvml_wrapper::Nvml::init to initialize the process-wide
/// library context.
#[verifier::external_body]
fn nvml_init() -> Result<nvml_wrapper::Nvml, nvml_wrapper::error::NvmlError> {
    nvml_wrapper::Nvml::init()
}

/// Relies on nvml_wrapper::Nvml::device_by_index to resolve the handle of
/// one physical device.
#[verifier::external_body]
fn nvml_device_by_index<'a>(
    nvml: &'a nvml_wrapper::Nvml,
    index: u32,
) -> Result<nvml_wrapper::Device<'a>, nvml_wrapper::error::NvmlError> {
    nvml.device_by_index(index)
}

/// Relies on nvml_wrapper::Nvml::sys_driver_version for the driver
/// version string.
#[verifier::external_body]
fn nvml_sys_driver_version(
    nvml: &nvml_wrapper::Nvml,
) -> Result<String, nvml_wrapper::error::NvmlError> {
    nvml.sys_driver_version()
}

/// Relies on nvml_wrapper::Device::name for the device name string.
#[verifier::external_body]
fn device_name(
    device: &nvml_wrapper::Device<'_>,
) -> Result<String, nvml_wrapper::error::NvmlError> {
    device.name()
}

/// Relies on nvml_wrapper::Device::power_usage: power draw in milliwatts.
#[verifier::external_body]
fn device_power_usage(
    device: &nvml_wrapper::Device<'_>,
) -> Result<u32, nvml_wrapper::error::NvmlError> {
    device.power_usage()
}

/// Relies on nvml_wrapper::Device::clock_info: the current clock of one
/// domain in MHz. The library's Shader domain is NVML's SM clock.
#[verifier::external_body]
fn device_clock_info(
    device: &nvml_wrapper::Device<'_>,
    d: ClockDomain,
) -> Result<u32, nvml_wrapper::error::NvmlError> {
    device.clock_info(match d {
        ClockDomain::Graphics => nvml_wrapper::enum_wrappers::device::Clock::Graphics,
        ClockDomain::Shader => nvml_wrapper::enum_wrappers::device::Clock::SM,
        ClockDomain::Memory => nvml_wrapper::enum_wrappers::device::Clock::Memory,
        ClockDomain::Video => nvml_wrapper::enum_wrappers::device::Clock::Video,
    })
}

/// Relies on nvml_wrapper::Device::max_clock_info: the maximum clock of
/// one domain in MHz. The library's Shader domain is NVML's SM clock.
#[verifier::external_body]
fn device_max_clock_info(
    device: &nvml_wrapper::Device<'_>,
    d: ClockDomain,
) -> Result<u32, nvml_wrapper::error::NvmlError> {
    device.max_clock_info(match d {
        ClockDomain::Graphics => nvml_wrapper::enum_wrappers::device::Clock::Graphics,
        ClockDomain::Shader => nvml_wrapper::enum_wrappers::device::Clock::SM,
        ClockDomain::Memory => nvml_wrapper::enum_wrappers::device::Clock::Memory,
        ClockDomain::Video => nvml_wrapper::enum_wrappers::device::Clock::Video,
    })
}

/// Relies on nvml_wrapper::Device::temperature with the GPU die sensor.
#[verifier::external_body]
fn device_temperature(
    device: &nvml_wrapper::Device<'_>,
) -> Result<u32, nvml_wrapper::error::NvmlError> {
    device.temperature(nvml_wrapper::enum_wrappers::device::TemperatureSensor::Gpu)
}

/// Relies on nvml_wrapper::Device::memory_info; keeps the free, used and
/// total byte counts.
#[verifier::external_body]
fn device_memory_info(
    device: &nvml_wrapper::Device<'_>,
) -> Result<MemoryBytes, nvml_wrapper::error::NvmlError> {
    let info = device.memory_info()?;
    Ok(MemoryBytes { free: info.free, used: info.used, total: info.total })
}

/// Relies on nvml_wrapper::Device::fan_speed for the given fan index, as
/// a percentage of the maximum speed.
#[verifier::external_body]
fn device_fan_speed(
    device: &nvml_wrapper::Device<'_>,
    fan_idx: u32,
) -> Result<u32, nvml_wrapper::error::NvmlError> {
    device.fan_speed(fan_idx)
}

/// Relies on nvml_wrapper::Device::utilization_rates; keeps the GPU and
/// memory percentages.
#[verifier::external_body]
fn device_utilization(
    device: &nvml_wrapper::Device<'_>,
) -> Result<UtilizationPct, nvml_wrapper::error::NvmlError> {
    let rates = device.utilization_rates()?;
    Ok(UtilizationPct { gpu: rates.gpu, memory: rates.memory })
}

/// Relies on nvml_wrapper::Device::set_gpc_clock_vf_offset, and on the
/// library's conversion of its error back to the raw NVML status code;
/// NVML returns status zero for success, so a rejected write maps to its
/// non-zero code.
#[verifier::external_body]
fn device_set_core_offset(device: &nvml_wrapper::Device<'_>, value: i32) -> u32 {
    match device.set_gpc_clock_vf_offset(value) {
        Ok(()) => 0,
        Err(e) => u32::from(e),
    }
}

/// Relies on nvml_wrapper::Device::set_mem_clock_vf_offset, and on the
/// library's conversion of its error back to the raw NVML status code;
/// NVML returns status zero for success, so a rejected write maps to its
/// non-zero code.
#[verifier::external_body]
fn device_set_mem_offset(device: &nvml_wrapper::Device<'_>, value: i32) -> u32 {
    match device.set_mem_clock_vf_offset(value) {
        Ok(()) => 0,
        Err(e) => u32::from(e),
    }
}

/// Relies on nvml_wrapper::Device::gpc_clock_vf_offset: the GPU clock
/// frequency offset currently applied, in MHz.
#[verifier::external_body]
fn device_core_offset(
    device: &nvml_wrapper::Device<'_>,
) -> Result<i32, nvml_wrapper::error::NvmlError> {
    device.gpc_clock_vf_offset()
}

/// Relies on nvml_wrapper::Device::mem_clock_vf_offset: the memory clock
/// frequency offset currently applied, in MHz.
#[verifier::external_body]
fn device_mem_offset(
    device: &nvml_wrapper::Device<'_>,
) -> Result<i32, nvml_wrapper::error::NvmlError> {
    device.mem_clock_vf_offset()
}

/// Relies on nix::unistd::geteuid: whether the process runs with an
/// effective user id of root.
#[verifier::external_body]
fn euid_is_root() -> bool {
    nix::unistd::geteuid().is_root()
}

/// A telemetry source backed by one resolved device handle. Its model
/// records the value each query reported.
pub struct DeviceSource<'a> {
    device: nvml_wrapper::Device<'a>,
    model: Ghost<Readings>,
}

impl<'a> TelemetrySource for DeviceSource<'a> {
    closed spec fn model(&self) -> Readings {
        self.model@
    }

    fn read_power(&mut self) -> (r: Result<u32, QueryFault>) {
        match device_power_usage(&self.device) {
            Ok(v) => {
                self.model = Ghost(Readings { power_mw: v, ..self.model@ });
                Ok(v)
            },
            Err(_) => Err(QueryFault),
        }
    }

    fn read_clock(&mut self, d: ClockDomain) -> (r: Result<u32, QueryFault>) {
        match device_clock_info(&self.device, d) {
            Ok(v) => {
                proof {
                    let s = self.model@.clock_mhz@.update(domain_index(d), v);
                    let updated: [u32; 4] = [s[0], s[1], s[2], s[3]];
                    assert(updated@ =~= s);
                    self.model@ = Readings { clock_mhz: updated, ..self.model@ };
                }
                Ok(v)
            },
            Err(_) => Err(QueryFault),
        }
    }

    fn read_max_clock(&mut self, d: ClockDomain) -> (r: Result<u32, QueryFault>) {
        match device_max_clock_info(&self.device, d) {
            Ok(v) => {
                proof {
                    let s = self.model@.max_clock_mhz@.update(domain_index(d), v);
                    let updated: [u32; 4] = [s[0], s[1], s[2], s[3]];
                    assert(updated@ =~= s);
                    self.model@ = Readings { max_clock_mhz: updated, ..self.model@ };
                }
                Ok(v)
            },
            Err(_) => Err(QueryFault),
        }
    }

    fn read_temperature(&mut self) -> (r: Result<u32, QueryFault>) {
        match device_temperature(&self.device) {
            Ok(v) => {
                self.model = Ghost(Readings { temperature_c: v, ..self.model@ });
                Ok(v)
            },
            Err(_) => Err(QueryFault),
        }
    }

    fn read_memory(&mut self) -> (r: Result<MemoryBytes, QueryFault>) {
        match device_memory_info(&self.device) {
            Ok(m) => {
                self.model = Ghost(Readings {
                    mem_free_bytes: m.free,
                    mem_used_bytes: m.used,
                    mem_total_bytes: m.total,
                    ..self.model@
                });
                Ok(m)
            },
            Err(_) => Err(QueryFault),
        }
    }

    fn read_fan(&mut self, fan_idx: u32) -> (r: Result<u32, QueryFault>) {
        match device_fan_speed(&self.device, fan_idx) {
            Ok(v) => {
                self.model = Ghost(Readings { fan_speed_pct: v, ..self.model@ });
                Ok(v)
            },
            Err(_) => Err(QueryFault),
        }
    }

    fn read_utilization(&mut self) -> (r: Result<UtilizationPct, QueryFault>) {
        match device_utilization(&self.device) {
            Ok(u) => {
                self.model = Ghost(Readings {
                    gpu_utilization_pct: u.gpu,
                    mem_utilization_pct: u.memory,
                    ..self.model@
                });
                Ok(u)
            },
            Err(_) => Err(QueryFault),
        }
    }
}

/// An offset sink backed by one resolved device handle. Its log records
/// every foreign write call made through it.
pub struct DeviceSink<'a> {
    device: nvml_wrapper::Device<'a>,
    log: Ghost<Seq<WriteRecord>>,
}

impl<'a> OffsetSink for DeviceSink<'a> {
    closed spec fn log(&self) -> Seq<WriteRecord> {
        self.log@
    }

    fn write_core_offset(&mut self, value: i32) -> (status: u32) {
        let status = device_set_core_offset(&self.device, value);
        proof {
            self.log@ = self.log@.push(
                WriteRecord { domain: OffsetDomain::Core, value, status },
            );
        }
        status
    }

    fn write_mem_offset(&mut self, value: i32) -> (status: u32) {
        let status = device_set_mem_offset(&self.device, value);
        proof {
            self.log@ = self.log@.push(
                WriteRecord { domain: OffsetDomain::Memory, value, status },
            );
        }
        status
    }
}

/// The device adapter: owns the library context and the current snapshot.
pub struct Gpu {
    /// The process-wide hardware-management library context.
    pub nvml: nvml_wrapper::Nvml,
    /// The last gathered telemetry, all fields zero-rendered before the
    /// first refresh.
    pub snapshot: Snapshot,
}

impl Gpu {
    /// Initialize the library context. There is no degraded mode: on
    /// failure the caller cannot proceed. The snapshot starts at the
    /// defined zero state.
    pub fn new() -> (r: Result<Gpu, AdapterError>)
        ensures
            r matches Ok(g) ==> g.snapshot.reflects(zero_readings()),
            r matches Err(e) ==> e == AdapterError::InitializationFailure,
    {
        match nvml_init() {
            Ok(nvml) => Ok(Gpu { nvml, snapshot: Snapshot::zeroed() }),
            Err(_) => Err(AdapterError::InitializationFailure),
        }
    }

    /// One full poll: resolve the device handle, gather every reading in
    /// the fixed sequence and overwrite the whole snapshot. On success
    /// the snapshot reflects one set of gathered readings; on failure the
    /// snapshot is left untouched and the error names the query that
    /// failed.
    pub fn update_gpu_info(&mut self) -> (r: Result<(), AdapterError>)
        ensures
            r is Ok ==> exists|rd: Readings| final(self).snapshot.reflects(rd),
            r is Err ==> final(self).snapshot == old(self).snapshot,
            r matches Err(e) ==> e is QueryFailure,
    {
        let device = match nvml_device_by_index(&self.nvml, 0) {
            Ok(d) => d,
            Err(_) => {
                return Err(AdapterError::QueryFailure(TelemetryField::DeviceHandle));
            },
        };
        let mut src = DeviceSource { device, model: Ghost(zero_readings()) };
        match refresh_from_source(&mut self.snapshot, &mut src) {
            Ok(()) => {
                proof {
                    assert(exists|rd: Readings| self.snapshot.reflects(rd)) by {
                        assert(self.snapshot.reflects(src.model()));
                    }
                }
                Ok(())
            },
            Err(e) => Err(e),
        }
    }

    /// The device name, resolved through the handle at index 0.
    pub fn get_gpu_name(&self) -> (r: Result<String, AdapterError>)
        ensures
            r matches Err(e) ==> e is QueryFailure,
    {
        let device = match nvml_device_by_index(&self.nvml, 0) {
            Ok(d) => d,
            Err(_) => {
                return Err(AdapterError::QueryFailure(TelemetryField::DeviceHandle));
            },
        };
        match device_name(&device) {
            Ok(name) => Ok(name),
            Err(_) => Err(AdapterError::QueryFailure(TelemetryField::Name)),
        }
    }

    /// The installed driver version string.
    pub fn get_driver_version(&self) -> (r: Result<String, AdapterError>)
        ensures
            r matches Err(e) ==> e is QueryFailure,
    {
        match nvml_sys_driver_version(&self.nvml) {
            Ok(v) => Ok(v),
            Err(_) => Err(AdapterError::QueryFailure(TelemetryField::DriverVersion)),
        }
    }

    /// The core (graphics) clock offset the hardware currently reports,
    /// in MHz.
    pub fn get_gpu_offset(&self) -> (r: Result<i32, AdapterError>)
        ensures
            r matches Err(e) ==> e is QueryFailure,
    {
        let device = match nvml_device_by_index(&self.nvml, 0) {
            Ok(d) => d,
            Err(_) => {
                return Err(AdapterError::QueryFailure(TelemetryField::DeviceHandle));
            },
        };
        match device_core_offset(&device) {
            Ok(v) => Ok(v),
            Err(_) => Err(AdapterError::QueryFailure(TelemetryField::CoreOffset)),
        }
    }

    /// The memory clock offset the hardware currently reports, in MHz.
    pub fn get_mem_offset(&self) -> (r: Result<i32, AdapterError>)
        ensures
            r matches Err(e) ==> e is QueryFailure,
    {
        let device = match nvml_device_by_index(&self.nvml, 0) {
            Ok(d) => d,
            Err(_) => {
                return Err(AdapterError::QueryFailure(TelemetryField::DeviceHandle));
            },
        };
        match device_mem_offset(&device) {
            Ok(v) => Ok(v),
            Err(_) => Err(AdapterError::QueryFailure(TelemetryField::MemOffset)),
        }
    }

    /// Whether the process holds the elevated privilege that offset
    /// writes require. Callers can check this before attempting a write.
    pub fn is_elevated(&self) -> bool {
        euid_is_root()
    }

    /// A write sink over the device handle at index 0, with an empty log.
    pub fn offset_sink(&self) -> (r: Result<DeviceSink<'_>, AdapterError>)
        ensures
            r matches Ok(s) ==> s.log() == Seq::<WriteRecord>::empty(),
            r matches Err(e) ==> e is QueryFailure,
    {
        match nvml_device_by_index(&self.nvml, 0) {
            Ok(d) => Ok(DeviceSink { device: d, log: Ghost(Seq::empty()) }),
            Err(_) => Err(AdapterError::QueryFailure(TelemetryField::DeviceHandle)),
        }
    }

    /// Apply a core/memory offset pair given as text, through `sink`.
    ///
    /// The inputs are parsed first; then the process privilege is
    /// checked; only then are writes issued, core first and memory only
    /// after a successful core write. Without privilege, or on malformed
    /// input, no write call is made.
    pub fn apply_offset<S: OffsetSink>(
        &self,
        sink: &mut S,
        core_text: &str,
        mem_text: &str,
    ) -> (r: Result<(), AdapterError>)
        ensures
            r == Result::<(), AdapterError>::Err(AdapterError::InvalidOffset)
                <==> !(is_offset_text(core_text@) && is_offset_text(mem_text@)),
            r == Result::<(), AdapterError>::Err(AdapterError::InvalidOffset)
                ==> final(sink).log() == old(sink).log(),
            r == Result::<(), AdapterError>::Err(AdapterError::PermissionDenied)
                ==> final(sink).log() == old(sink).log(),
            is_offset_text(core_text@) && is_offset_text(mem_text@) && r != Result::<
                (),
                AdapterError,
            >::Err(AdapterError::PermissionDenied) ==> crate::offsets::write_sequence(
                old(sink).log(),
                final(sink).log(),
                crate::parse::offset_value(core_text@) as i32,
                crate::parse::offset_value(mem_text@) as i32,
                r,
            ),
    {
        let privileged = euid_is_root();
        apply_offsets(sink, privileged, core_text, mem_text)
    }
}

} // verus!
