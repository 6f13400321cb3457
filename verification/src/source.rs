//! The telemetry source capability.
//!
//! A `TelemetrySource` hands out raw hardware readings one query at a
//! time. Its spec-level model records the value each query reported, so a
//! caller that gathers a full `Readings` can be held to returning exactly
//! what the source reported, with every clock stored at its domain's fixed
//! position. `FixedSource` is a hardware-free source reporting fixed
//! values; the device-backed source lives with the adapter.

use vstd::prelude::*;
use crate::domains::{clock_domain_at, domain_index, ClockDomain};
use crate::error::{AdapterError, QueryFault, TelemetryField};
use crate::snapshot::{same_readings, Readings, Snapshot};

verus! {

/// Memory byte counts as one query reports them.
#[derive(Clone, Copy, Debug, PartialEq, Eq, Structural)]
pub struct MemoryBytes {
    pub free: u64,
    pub used: u64,
    pub total: u64,
}

/// Utilization percentages as one query reports them.
#[derive(Clone, Copy, Debug, PartialEq, Eq, Structural)]
pub struct UtilizationPct {
    pub gpu: u32,
    pub memory: u32,
}

/// One query at a time against a hardware (or substitute) backend.
///
/// Each successful read updates the corresponding field of the model to
/// the value returned and leaves every other field alone; a failed read
/// leaves the model unchanged. Nothing is promised about which values come
/// back: the hardware decides.
pub trait TelemetrySource {
    /// The values this source has reported, one field per query.
    spec fn model(&self) -> Readings;

    /// Power draw in milliwatts.
    fn read_power(&mut self) -> (r: Result<u32, QueryFault>)
        ensures
            r matches Ok(v) ==> final(self).model() == (Readings {
                power_mw: v,
                ..old(self).model()
            }),
            r is Err ==> final(self).model() == old(self).model(),
    ;

    /// Current clock speed of domain `d`, in MHz.
    fn read_clock(&mut self, d: ClockDomain) -> (r: Result<u32, QueryFault>)
        ensures
            r matches Ok(v) ==> final(self).model() == (Readings {
                clock_mhz: final(self).model().clock_mhz,
                ..old(self).model()
            }) && final(self).model().clock_mhz@ == old(self).model().clock_mhz@.update(
                domain_index(d),
                v,
            ),
            r is Err ==> final(self).model() == old(self).model(),
    ;

    /// Maximum clock speed of domain `d`, in MHz.
    fn read_max_clock(&mut self, d: ClockDomain) -> (r: Result<u32, QueryFault>)
        ensures
            r matches Ok(v) ==> final(self).model() == (Readings {
                max_clock_mhz: final(self).model().max_clock_mhz,
                ..old(self).model()
            }) && final(self).model().max_clock_mhz@ == old(
                self,
            ).model().max_clock_mhz@.update(domain_index(d), v),
            r is Err ==> final(self).model() == old(self).model(),
    ;

    /// Temperature sensor reading.
    fn read_temperature(&mut self) -> (r: Result<u32, QueryFault>)
        ensures
            r matches Ok(v) ==> final(self).model() == (Readings {
                temperature_c: v,
                ..old(self).model()
            }),
            r is Err ==> final(self).model() == old(self).model(),
    ;

    /// Memory free/used/total byte counts.
    fn read_memory(&mut self) -> (r: Result<MemoryBytes, QueryFault>)
        ensures
            r matches Ok(m) ==> final(self).model() == (Readings {
                mem_free_bytes: m.free,
                mem_used_bytes: m.used,
                mem_total_bytes: m.total,
                ..old(self).model()
            }),
            r is Err ==> final(self).model() == old(self).model(),
    ;

    /// Speed of fan `fan_idx`, as a percentage.
    fn read_fan(&mut self, fan_idx: u32) -> (r: Result<u32, QueryFault>)
        ensures
            r matches Ok(v) ==> final(self).model() == (Readings {
                fan_speed_pct: v,
                ..old(self).model()
            }),
            r is Err ==> final(self).model() == old(self).model(),
    ;

    /// GPU and memory utilization percentages.
    fn read_utilization(&mut self) -> (r: Result<UtilizationPct, QueryFault>)
        ensures
            r matches Ok(u) ==> final(self).model() == (Readings {
                gpu_utilization_pct: u.gpu,
                mem_utilization_pct: u.memory,
                ..old(self).model()
            }),
            r is Err ==> final(self).model() == old(self).model(),
    ;
}

/// A telemetry source that reports fixed values, with per-query fault
/// switches. It stands in for the hardware in tests.
pub struct FixedSource {
    pub values: Readings,
    pub power_ok: bool,
    pub clock_ok: bool,
    pub max_clock_ok: bool,
    pub temperature_ok: bool,
    pub memory_ok: bool,
    pub fan_ok: bool,
    pub utilization_ok: bool,
}

impl FixedSource {
    /// A source that reports `values` and never fails.
    pub fn new(values: Readings) -> (s: FixedSource)
        ensures
            s.values == values,
            s.power_ok && s.clock_ok && s.max_clock_ok && s.temperature_ok && s.memory_ok
                && s.fan_ok && s.utilization_ok,
    {
        FixedSource {
            values,
            power_ok: true,
            clock_ok: true,
            max_clock_ok: true,
            temperature_ok: true,
            memory_ok: true,
            fan_ok: true,
            utilization_ok: true,
        }
    }
}

impl TelemetrySource for FixedSource {
    open spec fn model(&self) -> Readings {
        self.values
    }

    fn read_power(&mut self) -> (r: Result<u32, QueryFault>) {
        if self.power_ok {
            Ok(self.values.power_mw)
        } else {
            Err(QueryFault)
        }
    }

    fn read_clock(&mut self, d: ClockDomain) -> (r: Result<u32, QueryFault>) {
        if self.clock_ok {
            let i = crate::domains::domain_position(d);
            let v = self.values.clock_mhz[i];
            proof {
                assert(self.values.clock_mhz@.update(domain_index(d), v)
                    =~= self.values.clock_mhz@);
            }
            Ok(v)
        } else {
            Err(QueryFault)
        }
    }

    fn read_max_clock(&mut self, d: ClockDomain) -> (r: Result<u32, QueryFault>) {
        if self.max_clock_ok {
            let i = crate::domains::domain_position(d);
            let v = self.values.max_clock_mhz[i];
            proof {
                assert(self.values.max_clock_mhz@.update(domain_index(d), v)
                    =~= self.values.max_clock_mhz@);
            }
            Ok(v)
        } else {
            Err(QueryFault)
        }
    }

    fn read_temperature(&mut self) -> (r: Result<u32, QueryFault>) {
        if self.temperature_ok {
            Ok(self.values.temperature_c)
        } else {
            Err(QueryFault)
        }
    }

    fn read_memory(&mut self) -> (r: Result<MemoryBytes, QueryFault>) {
        if self.memory_ok {
            Ok(MemoryBytes {
                free: self.values.mem_free_bytes,
                used: self.values.mem_used_bytes,
                total: self.values.mem_total_bytes,
            })
        } else {
            Err(QueryFault)
        }
    }

    fn read_fan(&mut self, _fan_idx: u32) -> (r: Result<u32, QueryFault>) {
        if self.fan_ok {
            Ok(self.values.fan_speed_pct)
        } else {
            Err(QueryFault)
        }
    }

    fn read_utilization(&mut self) -> (r: Result<UtilizationPct, QueryFault>) {
        if self.utilization_ok {
            Ok(UtilizationPct {
                gpu: self.values.gpu_utilization_pct,
                memory: self.values.mem_utilization_pct,
            })
        } else {
            Err(QueryFault)
        }
    }
}

/// Gather one poll's worth of readings, querying in the fixed sequence:
/// power, then current and maximum clock for each domain in the fixed
/// order Graphics, Shader, Memory, Video, then temperature, memory info,
/// fan 0, and utilization. A failure on any single query aborts the whole
/// gather and names the query that failed.
///
/// On success the returned readings carry, field for field, exactly the
/// values the source reported, with each domain's clocks at its fixed
/// position.
pub fn gather_readings<S: TelemetrySource>(src: &mut S) -> (r: Result<Readings, AdapterError>)
    ensures
        r matches Ok(rd) ==> same_readings(rd, final(src).model()),
        r matches Err(e) ==> e is QueryFailure,
{
    let power = match src.read_power() {
        Ok(v) => v,
        Err(_) => {
            return Err(AdapterError::QueryFailure(TelemetryField::Power));
        },
    };
    let mut clocks: [u32; 4] = [0u32, 0u32, 0u32, 0u32];
    let mut max_clocks: [u32; 4] = [0u32, 0u32, 0u32, 0u32];
    let mut i: usize = 0;
    while i < 4
        invariant
            i <= 4,
            src.model().power_mw == power,
            forall|j: int| 0 <= j < i ==> clocks@[j] == src.model().clock_mhz@[j],
            forall|j: int| 0 <= j < i ==> max_clocks@[j] == src.model().max_clock_mhz@[j],
        decreases 4 - i,
    {
        let d = clock_domain_at(i);
        let v = match src.read_clock(d) {
            Ok(v) => v,
            Err(_) => {
                return Err(AdapterError::QueryFailure(TelemetryField::Clock(d)));
            },
        };
        clocks[i] = v;
        let mv = match src.read_max_clock(d) {
            Ok(v) => v,
            Err(_) => {
                return Err(AdapterError::QueryFailure(TelemetryField::MaxClock(d)));
            },
        };
        max_clocks[i] = mv;
        i = i + 1;
    }
    let temperature = match src.read_temperature() {
        Ok(v) => v,
        Err(_) => {
            return Err(AdapterError::QueryFailure(TelemetryField::Temperature));
        },
    };
    let memory = match src.read_memory() {
        Ok(m) => m,
        Err(_) => {
            return Err(AdapterError::QueryFailure(TelemetryField::MemoryInfo));
        },
    };
    let fan = match src.read_fan(0) {
        Ok(v) => v,
        Err(_) => {
            return Err(AdapterError::QueryFailure(TelemetryField::FanSpeed));
        },
    };
    let utilization = match src.read_utilization() {
        Ok(u) => u,
        Err(_) => {
            return Err(AdapterError::QueryFailure(TelemetryField::Utilization));
        },
    };
    let rd = Readings {
        power_mw: power,
        clock_mhz: clocks,
        max_clock_mhz: max_clocks,
        temperature_c: temperature,
        mem_free_bytes: memory.free,
        mem_used_bytes: memory.used,
        mem_total_bytes: memory.total,
        fan_speed_pct: fan,
        gpu_utilization_pct: utilization.gpu,
        mem_utilization_pct: utilization.memory,
    };
    proof {
        assert(rd.clock_mhz@ =~= src.model().clock_mhz@);
        assert(rd.max_clock_mhz@ =~= src.model().max_clock_mhz@);
    }
    Ok(rd)
}

/// One full refresh: gather readings from `src` and overwrite every field
/// of `snap` from them. On success the snapshot reflects exactly what the
/// source reported; on failure the snapshot is left untouched and the
/// error names the query that failed.
pub fn refresh_from_source<S: TelemetrySource>(snap: &mut Snapshot, src: &mut S) -> (r: Result<
    (),
    AdapterError,
>)
    ensures
        r is Ok ==> final(snap).reflects(final(src).model()),
        r is Err ==> *final(snap) == *old(snap),
        r matches Err(e) ==> e is QueryFailure,
{
    let rd = match gather_readings(src) {
        Ok(rd) => rd,
        Err(e) => {
            return Err(e);
        },
    };
    snap.refresh_from(&rd);
    proof {
        crate::snapshot::lemma_reflects_respects_values(*snap, rd, src.model());
    }
    Ok(())
}

} // verus!
