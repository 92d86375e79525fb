use stats_overlay::gpu::GpuStats;
use stats_overlay::stats::{
    assemble, mean_frequency_mhz, ram_percent_centi, sum_deltas, DiskRates, InterfaceDelta,
    StatsCollector,
};

const GIB: u64 = 1 << 30;

fn no_gpu() -> GpuStats {
    GpuStats::default()
}

#[test]
fn no_gpu_no_disk_half_memory() {
    let s = assemble(0, &vec![3000, 3000], 8 * GIB, 16 * GIB, &vec![], true, None, no_gpu());
    assert_eq!(s.ram_percent_centi, 5000);
    assert_eq!(s.ram_percent_centi as f64 / 100.0, 50.0);
    assert_eq!(s.gpu_percent, None);
    assert_eq!(s.disk_read_bytes_s, 0);
    assert_eq!(s.disk_write_bytes_s, 0);
    assert_eq!(s.ram_used_bytes, 8 * GIB);
    assert_eq!(s.ram_total_bytes, 16 * GIB);
}

#[test]
fn zero_total_memory_gives_zero_share() {
    assert_eq!(ram_percent_centi(0, 0), 0);
    assert_eq!(ram_percent_centi(12345, 0), 0);
    let s = assemble(0, &vec![], 7, 0, &vec![], true, None, no_gpu());
    assert_eq!(s.ram_percent_centi, 0);
}

#[test]
fn memory_share_exact_values() {
    assert_eq!(ram_percent_centi(1, 3), 3333);
    assert_eq!(ram_percent_centi(3, 3), 10000);
    assert_eq!(ram_percent_centi(u64::MAX, u64::MAX), 10000);
    assert_eq!(ram_percent_centi(u64::MAX, 1), (u64::MAX as u128) * 10000);
}

#[test]
fn mean_frequency_of_cores() {
    assert_eq!(mean_frequency_mhz(&vec![]), 0);
    assert_eq!(mean_frequency_mhz(&vec![3000, 3500, 4000, 4501]), 3750);
    assert_eq!(mean_frequency_mhz(&vec![u64::MAX, u64::MAX]), u64::MAX);
}

#[test]
fn network_deltas_are_summed() {
    let d = vec![
        InterfaceDelta { received: 100, transmitted: 10 },
        InterfaceDelta { received: 1048576, transmitted: 20 },
    ];
    assert_eq!(sum_deltas(&d), (1048676, 30));
    assert_eq!(sum_deltas(&vec![]), (0, 0));
    let big = vec![
        InterfaceDelta { received: u64::MAX, transmitted: 1 },
        InterfaceDelta { received: 5, transmitted: 2 },
    ];
    assert_eq!(sum_deltas(&big), (u64::MAX, 3));
}

#[test]
fn first_poll_reports_no_network_traffic() {
    let d = vec![InterfaceDelta { received: 5000, transmitted: 7000 }];
    let first = assemble(0, &vec![2000], GIB, 4 * GIB, &d, false, None, no_gpu());
    assert_eq!(first.net_down_bytes, 0);
    assert_eq!(first.net_up_bytes, 0);
    assert_eq!(first.ram_percent_centi, 2500);
    assert_eq!(first.cpu_freq_mhz, 2000);
    let later = assemble(0, &vec![2000], GIB, 4 * GIB, &d, true, None, no_gpu());
    assert_eq!(later.net_down_bytes, 5000);
    assert_eq!(later.net_up_bytes, 7000);
}

#[test]
fn disk_sample_is_carried_when_present() {
    let disk = Some(DiskRates { read_bytes_s: 2097152, write_bytes_s: 512 });
    let s = assemble(0, &vec![], 0, 0, &vec![], true, disk, no_gpu());
    assert_eq!(s.disk_read_bytes_s, 2097152);
    assert_eq!(s.disk_write_bytes_s, 512);
}

#[test]
fn cpu_usage_is_carried_unchanged() {
    let bits = 42.5f32.to_bits();
    let s = assemble(bits, &vec![], 0, 0, &vec![], true, None, no_gpu());
    assert_eq!(f32::from_bits(s.cpu_usage_bits), 42.5);
}

#[test]
fn shape_is_stable_without_gpu() {
    let a = assemble(1, &vec![1], 1, 2, &vec![], false, None, no_gpu());
    let b = assemble(9, &vec![9, 8], 2, 2, &vec![], true, Some(DiskRates { read_bytes_s: 1, write_bytes_s: 1 }), no_gpu());
    let shape = |s: &stats_overlay::stats::SystemStats| {
        [
            s.gpu_percent.is_some(),
            s.gpu_temp.is_some(),
            s.gpu_power_w.is_some(),
            s.gpu_clock_mhz.is_some(),
            s.vram_used_mb.is_some(),
            s.vram_total_mb.is_some(),
        ]
    };
    assert_eq!(shape(&a), shape(&b));
    assert_eq!(shape(&a), [false; 6]);
}

#[test]
fn collector_first_poll_on_this_machine() {
    let mut c = StatsCollector::new();
    let first = c.collect(None);
    assert_eq!(first.net_down_bytes, 0);
    assert_eq!(first.net_up_bytes, 0);
    assert_eq!(first.disk_read_bytes_s, 0);
    assert_eq!(first.disk_write_bytes_s, 0);
    if first.ram_total_bytes == 0 {
        assert_eq!(first.ram_percent_centi, 0);
    } else {
        assert_eq!(
            first.ram_percent_centi,
            first.ram_used_bytes as u128 * 10000 / first.ram_total_bytes as u128
        );
    }
    let second = c.collect(None);
    assert_eq!(second.disk_read_bytes_s, 0);
    assert_eq!(second.disk_write_bytes_s, 0);
}

#[test]
fn collector_without_gpu_probe_stays_without_gpu() {
    let mut c = StatsCollector::from_probes(
        sysinfo::System::new(),
        sysinfo::Networks::new(),
        Err("NVML init failed: no driver".to_string()),
    );
    for _ in 0..3 {
        let s = c.collect(None);
        assert_eq!(s.gpu_percent, None);
        assert_eq!(s.gpu_temp, None);
        assert_eq!(s.gpu_power_w, None);
        assert_eq!(s.gpu_clock_mhz, None);
        assert_eq!(s.vram_used_mb, None);
        assert_eq!(s.vram_total_mb, None);
        assert_eq!(s.disk_read_bytes_s, 0);
    }
}
