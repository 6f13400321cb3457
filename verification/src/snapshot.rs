//! The telemetry snapshot and the raw readings it is computed from.
//!
//! `Readings` holds one poll's worth of raw hardware values; `Snapshot`
//! holds the display fields. `Snapshot::refresh_from` overwrites every
//! snapshot field from the readings alone, so the result never depends on
//! the previous snapshot contents.

use vstd::prelude::*;
use crate::numfmt::{decimal_digits, u32_to_decimal, u64_to_decimal};
use crate::units::{bytes_to_mebibytes, milliwatts_to_watts};

verus! {

/// One poll's worth of raw hardware readings.
///
/// Clock arrays are indexed by `crate::domains::domain_index`: position 0
/// is Graphics, 1 Shader, 2 Memory, 3 Video. Power is in milliwatts,
/// memory sizes in bytes, clocks in MHz, fan and utilization in percent.
#[derive(Clone, Copy, Debug)]
pub struct Readings {
    pub power_mw: u32,
    pub clock_mhz: [u32; 4],
    pub max_clock_mhz: [u32; 4],
    pub temperature_c: u32,
    pub mem_free_bytes: u64,
    pub mem_used_bytes: u64,
    pub mem_total_bytes: u64,
    pub fan_speed_pct: u32,
    pub gpu_utilization_pct: u32,
    pub mem_utilization_pct: u32,
}

/// Whether two readings carry the same values, field for field.
pub open spec fn same_readings(a: Readings, b: Readings) -> bool {
    &&& a.power_mw == b.power_mw
    &&& a.clock_mhz@ == b.clock_mhz@
    &&& a.max_clock_mhz@ == b.max_clock_mhz@
    &&& a.temperature_c == b.temperature_c
    &&& a.mem_free_bytes == b.mem_free_bytes
    &&& a.mem_used_bytes == b.mem_used_bytes
    &&& a.mem_total_bytes == b.mem_total_bytes
    &&& a.fan_speed_pct == b.fan_speed_pct
    &&& a.gpu_utilization_pct == b.gpu_utilization_pct
    &&& a.mem_utilization_pct == b.mem_utilization_pct
}

/// Readings that are all zero, the defined starting state.
pub open spec fn zero_readings() -> Readings {
    Readings {
        power_mw: 0,
        clock_mhz: [0u32, 0u32, 0u32, 0u32],
        max_clock_mhz: [0u32, 0u32, 0u32, 0u32],
        temperature_c: 0,
        mem_free_bytes: 0,
        mem_used_bytes: 0,
        mem_total_bytes: 0,
        fan_speed_pct: 0,
        gpu_utilization_pct: 0,
        mem_utilization_pct: 0,
    }
}

impl Readings {
    /// All-zero readings.
    pub fn zeroed() -> (r: Readings)
        ensures
            r == zero_readings(),
    {
        Readings {
            power_mw: 0,
            clock_mhz: [0u32, 0u32, 0u32, 0u32],
            max_clock_mhz: [0u32, 0u32, 0u32, 0u32],
            temperature_c: 0,
            mem_free_bytes: 0,
            mem_used_bytes: 0,
            mem_total_bytes: 0,
            fan_speed_pct: 0,
            gpu_utilization_pct: 0,
            mem_utilization_pct: 0,
        }
    }
}

/// The display snapshot: one field per telemetry value, overwritten as a
/// whole on every refresh.
#[derive(Debug)]
pub struct Snapshot {
    pub power_watts: String,
    pub gpu_temp: String,
    pub gpu_mem_free: String,
    pub gpu_mem_total: String,
    pub gpu_mem_used: String,
    pub fan_speed: String,
    pub gpu_utilization: u32,
    pub mem_utilization: u32,
    pub max_core_freq: String,
    pub max_mem_freq: String,
    pub clock_speed_array: [u32; 4],
    pub clock_speed_max_array: [u32; 4],
}

impl Snapshot {
    /// The refresh relation: every snapshot field is the exact rendering
    /// of the corresponding reading. Power is milliwatts scaled to watts,
    /// memory sizes are bytes scaled to mebibytes, both truncating; clock
    /// arrays are copied positionally, so index `i` still holds domain
    /// `i`'s reading; the max core and memory frequencies are the Graphics
    /// and Memory entries of the max clock array.
    pub open spec fn reflects(self, rd: Readings) -> bool {
        &&& self.power_watts@ == decimal_digits((rd.power_mw / 1000) as int)
        &&& self.gpu_temp@ == decimal_digits(rd.temperature_c as int)
        &&& self.gpu_mem_free@ == decimal_digits((rd.mem_free_bytes / 1024000) as int)
        &&& self.gpu_mem_total@ == decimal_digits((rd.mem_total_bytes / 1024000) as int)
        &&& self.gpu_mem_used@ == decimal_digits((rd.mem_used_bytes / 1024000) as int)
        &&& self.fan_speed@ == decimal_digits(rd.fan_speed_pct as int)
        &&& self.gpu_utilization == rd.gpu_utilization_pct
        &&& self.mem_utilization == rd.mem_utilization_pct
        &&& self.max_core_freq@ == decimal_digits(rd.max_clock_mhz@[0] as int)
        &&& self.max_mem_freq@ == decimal_digits(rd.max_clock_mhz@[2] as int)
        &&& self.clock_speed_array@ == rd.clock_mhz@
        &&& self.clock_speed_max_array@ == rd.max_clock_mhz@
    }

    /// Overwrite every field from `rd`.
    pub fn refresh_from(&mut self, rd: &Readings)
        ensures
            final(self).reflects(*rd),
    {
        self.power_watts = u32_to_decimal(milliwatts_to_watts(rd.power_mw));
        self.gpu_temp = u32_to_decimal(rd.temperature_c);
        self.gpu_mem_free = u64_to_decimal(bytes_to_mebibytes(rd.mem_free_bytes));
        self.gpu_mem_total = u64_to_decimal(bytes_to_mebibytes(rd.mem_total_bytes));
        self.gpu_mem_used = u64_to_decimal(bytes_to_mebibytes(rd.mem_used_bytes));
        self.fan_speed = u32_to_decimal(rd.fan_speed_pct);
        self.gpu_utilization = rd.gpu_utilization_pct;
        self.mem_utilization = rd.mem_utilization_pct;
        self.max_core_freq = u32_to_decimal(rd.max_clock_mhz[0]);
        self.max_mem_freq = u32_to_decimal(rd.max_clock_mhz[2]);
        self.clock_speed_array = rd.clock_mhz;
        self.clock_speed_max_array = rd.max_clock_mhz;
    }

    /// The starting snapshot: every field rendered from zero readings, so
    /// every string field is "0" and every numeric field is 0.
    pub fn zeroed() -> (s: Snapshot)
        ensures
            s.reflects(zero_readings()),
    {
        let mut s = Snapshot {
            power_watts: String::new(),
            gpu_temp: String::new(),
            gpu_mem_free: String::new(),
            gpu_mem_total: String::new(),
            gpu_mem_used: String::new(),
            fan_speed: String::new(),
            gpu_utilization: 0,
            mem_utilization: 0,
            max_core_freq: String::new(),
            max_mem_freq: String::new(),
            clock_speed_array: [0u32, 0u32, 0u32, 0u32],
            clock_speed_max_array: [0u32, 0u32, 0u32, 0u32],
        };
        let zero = Readings::zeroed();
        s.refresh_from(&zero);
        s
    }
}

/// Refreshing is determined by the readings alone: two snapshots that
/// reflect the same readings agree on every field, whatever they held
/// before. Repeated refreshes therefore fully overwrite earlier values,
/// and equal polls yield equal snapshots.
pub proof fn lemma_refresh_determined(a: Snapshot, b: Snapshot, rd: Readings)
    requires
        a.reflects(rd),
        b.reflects(rd),
    ensures
        a.power_watts@ == b.power_watts@,
        a.gpu_temp@ == b.gpu_temp@,
        a.gpu_mem_free@ == b.gpu_mem_free@,
        a.gpu_mem_total@ == b.gpu_mem_total@,
        a.gpu_mem_used@ == b.gpu_mem_used@,
        a.fan_speed@ == b.fan_speed@,
        a.gpu_utilization == b.gpu_utilization,
        a.mem_utilization == b.mem_utilization,
        a.max_core_freq@ == b.max_core_freq@,
        a.max_mem_freq@ == b.max_mem_freq@,
        a.clock_speed_array@ == b.clock_speed_array@,
        a.clock_speed_max_array@ == b.clock_speed_max_array@,
{
}

/// Snapshots reflect readings by value: readings with the same values are
/// reflected by the same snapshots.
pub proof fn lemma_reflects_respects_values(s: Snapshot, a: Readings, b: Readings)
    requires
        s.reflects(a),
        same_readings(a, b),
    ensures
        s.reflects(b),
{
}

} // verus!
