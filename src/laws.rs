use crate::gpu::{poll_stats, readings_valid, stats_of, GpuReadings};
use crate::stats::{percent_centi, polled, snapshot_of, DiskRates, SystemStats, CENTI_PERCENT};
use vstd::prelude::*;

verus! {

/// Whatever readings made a polled snapshot, its memory share is the guarded
/// ratio of its own byte counts, its disk figures are zero without a disk
/// sample, its network figures are zero without a baseline, and its GPU
/// figures are absent without a GPU probe.
proof fn lemma_polled_fields(r: SystemStats, has_baseline: bool, disk: Option<DiskRates>, gpu_available: bool)
    requires
        polled(r, has_baseline, disk, gpu_available),
    ensures
        r.ram_percent_centi == percent_centi(r.ram_used_bytes, r.ram_total_bytes),
        disk is None ==> r.disk_read_bytes_s == 0 && r.disk_write_bytes_s == 0,
        !has_baseline ==> r.net_down_bytes == 0 && r.net_up_bytes == 0,
        !gpu_available ==> r.gpu_absent(),
        r.gpu_percent matches Some(p) ==> p <= 100,
{
    let (cpu, freqs, used, total, deltas, rd) = choose|
        cpu: u32,
        freqs: Seq<u64>,
        used: u64,
        total: u64,
        deltas: Seq<crate::stats::InterfaceDelta>,
        rd: Option<GpuReadings>,
    |
        #![trigger snapshot_of(cpu, freqs, used, total, deltas, has_baseline, disk, poll_stats(rd))]
        r == snapshot_of(cpu, freqs, used, total, deltas, has_baseline, disk, poll_stats(rd)) && (rd
            matches Some(x) ==> gpu_available && readings_valid(x));
    assert(r == snapshot_of(cpu, freqs, used, total, deltas, has_baseline, disk, poll_stats(rd)));
    if total != 0 {
        assert(0 <= (used as int) * 10000 / (total as int) <= (u64::MAX as int) * 10000)
            by (nonlinear_arith)
            requires
                total >= 1,
                used <= u64::MAX,
        ;
    }
}

/// Every polled snapshot whose used memory does not exceed its total reports
/// a memory share between zero and one hundred percent, and a GPU
/// utilization, where present, of at most one hundred percent; its rates,
/// being unsigned, are never negative.
pub proof fn lemma_memory_share_in_range(
    r: SystemStats,
    has_baseline: bool,
    disk: Option<DiskRates>,
    gpu_available: bool,
)
    requires
        polled(r, has_baseline, disk, gpu_available),
        r.ram_used_bytes <= r.ram_total_bytes,
    ensures
        0 <= r.ram_percent_centi <= CENTI_PERCENT,
        r.gpu_percent matches Some(p) ==> p <= 100,
{
    lemma_polled_fields(r, has_baseline, disk, gpu_available);
    let used = r.ram_used_bytes as int;
    let total = r.ram_total_bytes as int;
    if total != 0 {
        assert(used * 10000 / total <= 10000) by (nonlinear_arith)
            requires
                0 <= used <= total,
                total > 0,
        ;
    }
}

/// A polled snapshot whose total memory is zero reports a memory share of
/// exactly zero.
pub proof fn lemma_zero_total_memory(
    r: SystemStats,
    has_baseline: bool,
    disk: Option<DiskRates>,
    gpu_available: bool,
)
    requires
        polled(r, has_baseline, disk, gpu_available),
        r.ram_total_bytes == 0,
    ensures
        r.ram_percent_centi == 0,
{
    lemma_polled_fields(r, has_baseline, disk, gpu_available);
}

/// Without a GPU probe, every GPU and VRAM field of every polled snapshot is
/// absent. (`StatsCollector::collect` keeps the probe's availability as it
/// was at construction, so this holds for the collector's whole life.)
pub proof fn lemma_no_gpu_probe(r: SystemStats, has_baseline: bool, disk: Option<DiskRates>)
    requires
        polled(r, has_baseline, disk, false),
    ensures
        r.gpu_absent(),
{
    lemma_polled_fields(r, has_baseline, disk, false);
}

/// Without a disk sample, both disk rates of a polled snapshot are exactly
/// zero.
pub proof fn lemma_no_disk_probe(r: SystemStats, has_baseline: bool, gpu_available: bool)
    requires
        polled(r, has_baseline, None, gpu_available),
    ensures
        r.disk_read_bytes_s == 0,
        r.disk_write_bytes_s == 0,
{
    lemma_polled_fields(r, has_baseline, None, gpu_available);
}

/// The first poll, made without a network baseline, reports zero network
/// traffic, while its memory figures are already computed from the readings.
pub proof fn lemma_first_poll(r: SystemStats, disk: Option<DiskRates>, gpu_available: bool)
    requires
        polled(r, false, disk, gpu_available),
    ensures
        r.net_down_bytes == 0,
        r.net_up_bytes == 0,
        r.ram_percent_centi == percent_centi(r.ram_used_bytes, r.ram_total_bytes),
{
    lemma_polled_fields(r, false, disk, gpu_available);
}

/// A failed utilization query and a successful temperature query give a
/// snapshot without a utilization figure and with that temperature: sibling
/// GPU readings do not affect one another.
pub proof fn lemma_gpu_readings_independent(rd: GpuReadings)
    requires
        rd.utilization_percent is None,
        rd.temperature_c is Some,
    ensures
        stats_of(rd).percent is None,
        stats_of(rd).temp == rd.temperature_c,
{
}

/// Without a GPU probe, any two polled snapshots have the same fields present
/// and absent, however many polls lie between them.
pub proof fn lemma_shape_without_gpu(
    a: SystemStats,
    a_baseline: bool,
    a_disk: Option<DiskRates>,
    b: SystemStats,
    b_baseline: bool,
    b_disk: Option<DiskRates>,
)
    requires
        polled(a, a_baseline, a_disk, false),
        polled(b, b_baseline, b_disk, false),
    ensures
        a.shape() == b.shape(),
{
    lemma_polled_fields(a, a_baseline, a_disk, false);
    lemma_polled_fields(b, b_baseline, b_disk, false);
}

} // verus!
