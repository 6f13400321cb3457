use nvtweak::error::{AdapterError, TelemetryField};
use nvtweak::snapshot::{Readings, Snapshot};
use nvtweak::source::{gather_readings, refresh_from_source, FixedSource};

fn sample_readings() -> Readings {
    Readings {
        power_mw: 150_000,
        clock_mhz: [100, 200, 300, 400],
        max_clock_mhz: [1000, 2000, 3000, 4000],
        temperature_c: 65,
        mem_free_bytes: 2_048_000_000,
        mem_used_bytes: 1_024_000_000,
        mem_total_bytes: 3_072_000_000,
        fan_speed_pct: 45,
        gpu_utilization_pct: 87,
        mem_utilization_pct: 23,
    }
}

#[test]
fn snapshot_starts_at_zero() {
    let s = Snapshot::zeroed();
    assert_eq!(s.power_watts, "0");
    assert_eq!(s.gpu_temp, "0");
    assert_eq!(s.gpu_mem_free, "0");
    assert_eq!(s.gpu_mem_total, "0");
    assert_eq!(s.gpu_mem_used, "0");
    assert_eq!(s.fan_speed, "0");
    assert_eq!(s.gpu_utilization, 0);
    assert_eq!(s.mem_utilization, 0);
    assert_eq!(s.max_core_freq, "0");
    assert_eq!(s.max_mem_freq, "0");
    assert_eq!(s.clock_speed_array, [0, 0, 0, 0]);
    assert_eq!(s.clock_speed_max_array, [0, 0, 0, 0]);
}

#[test]
fn refresh_converts_milliwatts_to_watts() {
    let mut snap = Snapshot::zeroed();
    let mut src = FixedSource::new(sample_readings());
    assert!(refresh_from_source(&mut snap, &mut src).is_ok());
    assert_eq!(snap.power_watts, "150");
}

#[test]
fn refresh_converts_bytes_to_mebibytes() {
    let mut snap = Snapshot::zeroed();
    let mut src = FixedSource::new(sample_readings());
    assert!(refresh_from_source(&mut snap, &mut src).is_ok());
    assert_eq!(snap.gpu_mem_free, "2000");
    assert_eq!(snap.gpu_mem_used, "1000");
    assert_eq!(snap.gpu_mem_total, "3000");
}

#[test]
fn clock_arrays_follow_the_fixed_domain_order() {
    let mut snap = Snapshot::zeroed();
    let mut src = FixedSource::new(sample_readings());
    assert!(refresh_from_source(&mut snap, &mut src).is_ok());
    // Graphics, Shader, Memory, Video, positionally.
    assert_eq!(snap.clock_speed_array, [100, 200, 300, 400]);
    assert_eq!(snap.clock_speed_max_array, [1000, 2000, 3000, 4000]);
    // The headline max frequencies are the Graphics and Memory entries.
    assert_eq!(snap.max_core_freq, "1000");
    assert_eq!(snap.max_mem_freq, "3000");
}

#[test]
fn refresh_reports_remaining_fields() {
    let mut snap = Snapshot::zeroed();
    let mut src = FixedSource::new(sample_readings());
    assert!(refresh_from_source(&mut snap, &mut src).is_ok());
    assert_eq!(snap.gpu_temp, "65");
    assert_eq!(snap.fan_speed, "45");
    assert_eq!(snap.gpu_utilization, 87);
    assert_eq!(snap.mem_utilization, 23);
}

#[test]
fn repeated_refresh_overwrites_every_field() {
    let mut snap = Snapshot::zeroed();
    let mut src = FixedSource::new(sample_readings());
    assert!(refresh_from_source(&mut snap, &mut src).is_ok());

    let second = Readings {
        power_mw: 75_500,
        clock_mhz: [110, 210, 310, 410],
        max_clock_mhz: [1100, 2100, 3100, 4100],
        temperature_c: 70,
        mem_free_bytes: 1_024_000,
        mem_used_bytes: 2_048_000,
        mem_total_bytes: 3_072_000,
        fan_speed_pct: 55,
        gpu_utilization_pct: 12,
        mem_utilization_pct: 34,
    };
    let mut src2 = FixedSource::new(second);
    assert!(refresh_from_source(&mut snap, &mut src2).is_ok());

    assert_eq!(snap.power_watts, "75");
    assert_eq!(snap.gpu_temp, "70");
    assert_eq!(snap.gpu_mem_free, "1");
    assert_eq!(snap.gpu_mem_used, "2");
    assert_eq!(snap.gpu_mem_total, "3");
    assert_eq!(snap.fan_speed, "55");
    assert_eq!(snap.gpu_utilization, 12);
    assert_eq!(snap.mem_utilization, 34);
    assert_eq!(snap.max_core_freq, "1100");
    assert_eq!(snap.max_mem_freq, "3100");
    assert_eq!(snap.clock_speed_array, [110, 210, 310, 410]);
    assert_eq!(snap.clock_speed_max_array, [1100, 2100, 3100, 4100]);

    // A third pass over the first readings restores the first rendering:
    // nothing leaks from one poll to the next.
    let mut src3 = FixedSource::new(sample_readings());
    assert!(refresh_from_source(&mut snap, &mut src3).is_ok());
    assert_eq!(snap.power_watts, "150");
    assert_eq!(snap.clock_speed_array, [100, 200, 300, 400]);
}

#[test]
fn gather_returns_exactly_what_the_source_reports() {
    let mut src = FixedSource::new(sample_readings());
    let rd = gather_readings(&mut src).unwrap();
    assert_eq!(rd.power_mw, 150_000);
    assert_eq!(rd.clock_mhz, [100, 200, 300, 400]);
    assert_eq!(rd.max_clock_mhz, [1000, 2000, 3000, 4000]);
    assert_eq!(rd.temperature_c, 65);
    assert_eq!(rd.mem_free_bytes, 2_048_000_000);
    assert_eq!(rd.mem_used_bytes, 1_024_000_000);
    assert_eq!(rd.mem_total_bytes, 3_072_000_000);
    assert_eq!(rd.fan_speed_pct, 45);
    assert_eq!(rd.gpu_utilization_pct, 87);
    assert_eq!(rd.mem_utilization_pct, 23);
}

#[test]
fn a_failed_query_aborts_and_leaves_the_snapshot_alone() {
    let mut snap = Snapshot::zeroed();
    let mut good = FixedSource::new(sample_readings());
    assert!(refresh_from_source(&mut snap, &mut good).is_ok());

    let mut src = FixedSource::new(Readings {
        power_mw: 1_000,
        ..sample_readings()
    });
    src.temperature_ok = false;
    let r = refresh_from_source(&mut snap, &mut src);
    assert_eq!(
        r,
        Err(AdapterError::QueryFailure(TelemetryField::Temperature))
    );
    // The snapshot still shows the previous poll, not a partial update.
    assert_eq!(snap.power_watts, "150");
    assert_eq!(snap.gpu_temp, "65");
}

#[test]
fn each_query_fault_names_its_field() {
    let mut snap = Snapshot::zeroed();

    let mut src = FixedSource::new(sample_readings());
    src.power_ok = false;
    assert_eq!(
        refresh_from_source(&mut snap, &mut src),
        Err(AdapterError::QueryFailure(TelemetryField::Power))
    );

    let mut src = FixedSource::new(sample_readings());
    src.memory_ok = false;
    assert_eq!(
        refresh_from_source(&mut snap, &mut src),
        Err(AdapterError::QueryFailure(TelemetryField::MemoryInfo))
    );

    let mut src = FixedSource::new(sample_readings());
    src.fan_ok = false;
    assert_eq!(
        refresh_from_source(&mut snap, &mut src),
        Err(AdapterError::QueryFailure(TelemetryField::FanSpeed))
    );

    let mut src = FixedSource::new(sample_readings());
    src.utilization_ok = false;
    assert_eq!(
        refresh_from_source(&mut snap, &mut src),
        Err(AdapterError::QueryFailure(TelemetryField::Utilization))
    );

    let mut src = FixedSource::new(sample_readings());
    src.clock_ok = false;
    assert_eq!(
        refresh_from_source(&mut snap, &mut src),
        Err(AdapterError::QueryFailure(TelemetryField::Clock(
            nvtweak::domains::ClockDomain::Graphics
        )))
    );

    let mut src = FixedSource::new(sample_readings());
    src.max_clock_ok = false;
    assert_eq!(
        refresh_from_source(&mut snap, &mut src),
        Err(AdapterError::QueryFailure(TelemetryField::MaxClock(
            nvtweak::domains::ClockDomain::Graphics
        )))
    );
}
