use stats_overlay::gpu::{GpuMemory, GpuReadings, GpuStats};

fn all_ok() -> GpuReadings {
    GpuReadings {
        utilization_percent: Some(37),
        temperature_c: Some(64),
        power_mw: Some(250_999),
        graphics_clock_mhz: Some(1890),
        memory: Some(GpuMemory { used_bytes: 3 * 1048576 + 1048575, total_bytes: 8 << 30 }),
    }
}

#[test]
fn readings_convert_to_display_units() {
    let s = GpuStats::from_readings(all_ok());
    assert_eq!(s.percent, Some(37));
    assert_eq!(s.temp, Some(64));
    assert_eq!(s.power_w, Some(250));
    assert_eq!(s.clock_mhz, Some(1890));
    assert_eq!(s.vram_used_mb, Some(3));
    assert_eq!(s.vram_total_mb, Some(8192));
}

#[test]
fn failed_utilization_leaves_temperature() {
    let rd = GpuReadings { utilization_percent: None, ..all_ok() };
    let s = GpuStats::from_readings(rd);
    assert_eq!(s.percent, None);
    assert_eq!(s.temp, Some(64));
    assert_eq!(s.power_w, Some(250));
}

#[test]
fn failed_memory_query_leaves_both_vram_fields_absent() {
    let rd = GpuReadings { memory: None, ..all_ok() };
    let s = GpuStats::from_readings(rd);
    assert_eq!(s.vram_used_mb, None);
    assert_eq!(s.vram_total_mb, None);
    assert_eq!(s.clock_mhz, Some(1890));
}

#[test]
fn default_gpu_stats_are_absent() {
    let s = GpuStats::default();
    assert_eq!(
        s,
        GpuStats::from_readings(GpuReadings {
            utilization_percent: None,
            temperature_c: None,
            power_mw: None,
            graphics_clock_mhz: None,
            memory: None,
        })
    );
    assert_eq!(s.percent, None);
    assert_eq!(s.vram_total_mb, None);
}

#[test]
fn huge_vram_is_truncated_to_32_bits() {
    let rd = GpuReadings {
        memory: Some(GpuMemory { used_bytes: u64::MAX, total_bytes: 0 }),
        ..all_ok()
    };
    let s = GpuStats::from_readings(rd);
    assert_eq!(s.vram_used_mb, Some(((u64::MAX >> 20) & 0xFFFF_FFFF) as u32));
    assert_eq!(s.vram_total_mb, Some(0));
}

#[test]
fn failed_driver_start_is_reported_with_its_text() {
    let r = stats_overlay::gpu::GpuMonitor::from_session(Err("driver not loaded".to_string()));
    match r {
        Err(msg) => assert_eq!(msg, "NVML init failed: driver not loaded"),
        Ok(_) => panic!("a failed start must not give a monitor"),
    }
}

#[test]
fn unreachable_device_gives_all_absent() {
    let s = stats_overlay::gpu::stats_for(None);
    assert_eq!(s, GpuStats::default());
    let t = stats_overlay::gpu::stats_for(Some(all_ok()));
    assert_eq!(t, GpuStats::from_readings(all_ok()));
    assert_eq!(t.power_w, Some(250));
}
