use crate::gpu::{poll_stats, readings_valid, GpuMonitor, GpuReadings, GpuStats};
use sysinfo::{NetworkData, Networks, System};
use vstd::prelude::*;

verus! {

/// Hundredths of a percent in a whole.
pub const CENTI_PERCENT: u128 = 10000;

/// Disk throughput over the last sampling interval, in bytes per second, as
/// the operating system's performance counters computed it.
#[derive(Clone, Copy, Debug, PartialEq, Eq, Structural)]
pub struct DiskRates {
    pub read_bytes_s: u64,
    pub write_bytes_s: u64,
}

/// Bytes received and transmitted by one network interface since the
/// previous refresh.
#[derive(Clone, Copy, Debug, PartialEq, Eq, Structural)]
pub struct InterfaceDelta {
    pub received: u64,
    pub transmitted: u64,
}

/// One complete poll of every subsystem, in integer units.
///
/// `cpu_usage_bits` carries the operating system's aggregate CPU usage figure
/// (a percentage) as the bit pattern of an IEEE-754 single, untouched.
/// Optional fields are `None` where their probe is absent or its reading
/// failed this poll; rates of an absent probe are zero.
#[derive(Clone, Copy, Debug, PartialEq, Eq, Structural)]
pub struct SystemStats {
    pub cpu_usage_bits: u32,
    pub cpu_freq_mhz: u64,
    pub ram_percent_centi: u128,
    pub ram_used_bytes: u64,
    pub ram_total_bytes: u64,
    pub gpu_percent: Option<u32>,
    pub gpu_temp: Option<u32>,
    pub gpu_power_w: Option<u32>,
    pub gpu_clock_mhz: Option<u32>,
    pub vram_used_mb: Option<u32>,
    pub vram_total_mb: Option<u32>,
    pub disk_read_bytes_s: u64,
    pub disk_write_bytes_s: u64,
    pub net_down_bytes: u64,
    pub net_up_bytes: u64,
}

/// Sum of a sequence of clock readings.
pub open spec fn sum_of(s: Seq<u64>) -> int
    decreases s.len(),
{
    if s.len() == 0 {
        0
    } else {
        sum_of(s.drop_last()) + s.last()
    }
}

/// Arithmetic mean of the clock readings, rounded down; zero for no readings.
pub open spec fn mean_of(s: Seq<u64>) -> int {
    if s.len() == 0 {
        0
    } else {
        sum_of(s) / (s.len() as int)
    }
}

/// Memory in use as hundredths of a percent of the total; zero when the total
/// is zero.
pub open spec fn percent_centi(used: u64, total: u64) -> int {
    if total == 0 {
        0
    } else {
        (used as int) * (CENTI_PERCENT as int) / (total as int)
    }
}

/// Total bytes received over all interfaces.
pub open spec fn received_of(s: Seq<InterfaceDelta>) -> int
    decreases s.len(),
{
    if s.len() == 0 {
        0
    } else {
        received_of(s.drop_last()) + s.last().received
    }
}

/// Total bytes transmitted over all interfaces.
pub open spec fn transmitted_of(s: Seq<InterfaceDelta>) -> int
    decreases s.len(),
{
    if s.len() == 0 {
        0
    } else {
        transmitted_of(s.drop_last()) + s.last().transmitted
    }
}

/// `x`, held to what a `u64` can represent.
pub open spec fn saturated(x: int) -> u64 {
    if x <= u64::MAX {
        x as u64
    } else {
        u64::MAX
    }
}

/// The snapshot that one poll's readings make.
///
/// The network figures are zero until the collector has a baseline; the disk
/// figures are zero without a disk probe; the GPU figures are those given.
pub open spec fn snapshot_of(
    cpu_usage_bits: u32,
    freqs: Seq<u64>,
    used: u64,
    total: u64,
    deltas: Seq<InterfaceDelta>,
    has_baseline: bool,
    disk: Option<DiskRates>,
    gpu: GpuStats,
) -> SystemStats {
    SystemStats {
        cpu_usage_bits,
        cpu_freq_mhz: mean_of(freqs) as u64,
        ram_percent_centi: percent_centi(used, total) as u128,
        ram_used_bytes: used,
        ram_total_bytes: total,
        gpu_percent: gpu.percent,
        gpu_temp: gpu.temp,
        gpu_power_w: gpu.power_w,
        gpu_clock_mhz: gpu.clock_mhz,
        vram_used_mb: gpu.vram_used_mb,
        vram_total_mb: gpu.vram_total_mb,
        disk_read_bytes_s: match disk {
            Some(d) => d.read_bytes_s,
            None => 0,
        },
        disk_write_bytes_s: match disk {
            Some(d) => d.write_bytes_s,
            None => 0,
        },
        net_down_bytes: if has_baseline { saturated(received_of(deltas)) } else { 0 },
        net_up_bytes: if has_baseline { saturated(transmitted_of(deltas)) } else { 0 },
    }
}

/// `r` is the snapshot of some poll's readings, taken with or without a
/// network baseline and with the disk sample `disk`. Its GPU figures are
/// those of a GPU poll whose readings are valid, and all absent unless a GPU
/// probe is available.
pub open spec fn polled(r: SystemStats, has_baseline: bool, disk: Option<DiskRates>, gpu_available: bool) -> bool {
    exists|
        cpu: u32,
        freqs: Seq<u64>,
        used: u64,
        total: u64,
        deltas: Seq<InterfaceDelta>,
        rd: Option<GpuReadings>,
    |
        #![trigger snapshot_of(cpu, freqs, used, total, deltas, has_baseline, disk, poll_stats(rd))]
        r == snapshot_of(cpu, freqs, used, total, deltas, has_baseline, disk, poll_stats(rd)) && (rd
            matches Some(x) ==> gpu_available && readings_valid(x))
}

impl SystemStats {
    /// Every GPU and VRAM field is absent.
    pub open spec fn gpu_absent(&self) -> bool {
        &&& self.gpu_percent is None
        &&& self.gpu_temp is None
        &&& self.gpu_power_w is None
        &&& self.gpu_clock_mhz is None
        &&& self.vram_used_mb is None
        &&& self.vram_total_mb is None
    }

    /// Which optional fields are present.
    pub open spec fn shape(&self) -> Seq<bool> {
        seq![
            self.gpu_percent is Some,
            self.gpu_temp is Some,
            self.gpu_power_w is Some,
            self.gpu_clock_mhz is Some,
            self.vram_used_mb is Some,
            self.vram_total_mb is Some,
        ]
    }
}

proof fn lemma_sum_bound(s: Seq<u64>)
    ensures
        0 <= sum_of(s) <= s.len() * (u64::MAX as int),
    decreases s.len(),
{
    if s.len() > 0 {
        lemma_sum_bound(s.drop_last());
    }
}

proof fn lemma_mean_fits(sum: int, n: int)
    requires
        n > 0,
        0 <= sum <= n * (u64::MAX as int),
    ensures
        0 <= sum / n <= u64::MAX,
{
    assert(sum / n <= u64::MAX) by (nonlinear_arith)
        requires
            n > 0,
            0 <= sum <= n * (u64::MAX as int),
    ;
    assert(0 <= sum / n) by (nonlinear_arith)
        requires
            n > 0,
            0 <= sum,
    ;
}

/// Arithmetic mean of the logical cores' clock readings in MHz, rounded down;
/// zero when there are none.
pub fn mean_frequency_mhz(freqs: &Vec<u64>) -> (r: u64)
    ensures
        r == mean_of(freqs@),
{
    let n: usize = freqs.len();
    if n == 0 {
        return 0;
    }
    let mut acc: u128 = 0;
    let mut i: usize = 0;
    while i < n
        invariant
            n == freqs@.len(),
            i <= n,
            acc == sum_of(freqs@.subrange(0, i as int)),
            acc <= i * (u64::MAX as int),
        decreases n - i,
    {
        proof {
            let s = freqs@.subrange(0, i as int + 1);
            assert(s.drop_last() == freqs@.subrange(0, i as int));
            assert((i as int + 1) * (u64::MAX as int) <= (u64::MAX as int) * (u64::MAX as int))
                by (nonlinear_arith)
                requires
                    i + 1 <= usize::MAX,
                    usize::MAX <= u64::MAX,
            ;
        }
        acc = acc + freqs[i] as u128;
        i = i + 1;
    }
    proof {
        assert(freqs@.subrange(0, n as int) == freqs@);
        lemma_mean_fits(acc as int, n as int);
    }
    (acc / (n as u128)) as u64
}

/// Memory in use as hundredths of a percent of the total, guarded against a
/// zero total.
pub fn ram_percent_centi(used: u64, total: u64) -> (r: u128)
    ensures
        r == percent_centi(used, total),
{
    if total == 0 {
        0
    } else {
        assert((used as int) * 10000 <= u128::MAX) by (nonlinear_arith)
            requires
                used <= u64::MAX,
        ;
        (used as u128) * CENTI_PERCENT / (total as u128)
    }
}

proof fn lemma_saturated_step(acc: int, x: int)
    requires
        0 <= acc,
        0 <= x <= u64::MAX,
    ensures
        saturated(saturated(acc) + x) == saturated(acc + x),
{
}

/// Bytes received and transmitted over all interfaces since the previous
/// refresh, each sum held at `u64::MAX`.
pub fn sum_deltas(deltas: &Vec<InterfaceDelta>) -> (r: (u64, u64))
    ensures
        r.0 == saturated(received_of(deltas@)),
        r.1 == saturated(transmitted_of(deltas@)),
{
    let mut down: u64 = 0;
    let mut up: u64 = 0;
    let mut i: usize = 0;
    while i < deltas.len()
        invariant
            i <= deltas@.len(),
            down == saturated(received_of(deltas@.subrange(0, i as int))),
            up == saturated(transmitted_of(deltas@.subrange(0, i as int))),
        decreases deltas@.len() - i,
    {
        proof {
            let s = deltas@.subrange(0, i as int + 1);
            assert(s.drop_last() == deltas@.subrange(0, i as int));
            lemma_received_nonneg(deltas@.subrange(0, i as int));
            lemma_transmitted_nonneg(deltas@.subrange(0, i as int));
            lemma_saturated_step(received_of(deltas@.subrange(0, i as int)), deltas[i as int].received as int);
            lemma_saturated_step(transmitted_of(deltas@.subrange(0, i as int)), deltas[i as int].transmitted as int);
        }
        down = down.saturating_add(deltas[i].received);
        up = up.saturating_add(deltas[i].transmitted);
        i = i + 1;
    }
    proof {
        assert(deltas@.subrange(0, i as int) == deltas@);
    }
    (down, up)
}

proof fn lemma_received_nonneg(s: Seq<InterfaceDelta>)
    ensures
        received_of(s) >= 0,
    decreases s.len(),
{
    if s.len() > 0 {
        lemma_received_nonneg(s.drop_last());
    }
}

proof fn lemma_transmitted_nonneg(s: Seq<InterfaceDelta>)
    ensures
        transmitted_of(s) >= 0,
    decreases s.len(),
{
    if s.len() > 0 {
        lemma_transmitted_nonneg(s.drop_last());
    }
}

/// Merges one poll's readings into a snapshot: the mean clock, the guarded
/// memory share, the network sums once a baseline exists, the disk rates when
/// a disk probe exists, and the GPU figures as given.
pub fn assemble(
    cpu_usage_bits: u32,
    freqs: &Vec<u64>,
    used: u64,
    total: u64,
    deltas: &Vec<InterfaceDelta>,
    has_baseline: bool,
    disk: Option<DiskRates>,
    gpu: GpuStats,
) -> (r: SystemStats)
    ensures
        r == snapshot_of(cpu_usage_bits, freqs@, used, total, deltas@, has_baseline, disk, gpu),
{
    let (down, up) = if has_baseline {
        sum_deltas(deltas)
    } else {
        (0, 0)
    };
    let (disk_read_bytes_s, disk_write_bytes_s) = match disk {
        Some(d) => (d.read_bytes_s, d.write_bytes_s),
        None => (0, 0),
    };
    SystemStats {
        cpu_usage_bits,
        cpu_freq_mhz: mean_frequency_mhz(freqs),
        ram_percent_centi: ram_percent_centi(used, total),
        ram_used_bytes: used,
        ram_total_bytes: total,
        gpu_percent: gpu.percent,
        gpu_temp: gpu.temp,
        gpu_power_w: gpu.power_w,
        gpu_clock_mhz: gpu.clock_mhz,
        vram_used_mb: gpu.vram_used_mb,
        vram_total_mb: gpu.vram_total_mb,
        disk_read_bytes_s,
        disk_write_bytes_s,
        net_down_bytes: down,
        net_up_bytes: up,
    }
}

#[verifier::external_type_specification]
#[verifier::external_body]
pub struct ExSystem(System);

#[verifier::external_type_specification]
#[verifier::external_body]
pub struct ExNetworks(Networks);

#[verifier::external_type_specification]
#[verifier::external_body]
pub struct ExNetworkData(NetworkData);

pub assume_specification[ System::new_all ]() -> System;

pub assume_specification[ System::refresh_all ](s: &mut System);

pub assume_specification[ System::refresh_cpu_all ](s: &mut System);

pub assume_specification[ System::refresh_memory ](s: &mut System);

pub assume_specification[ System::total_memory ](s: &System) -> u64;

pub assume_specification[ System::used_memory ](s: &System) -> u64;

pub assume_specification[ Networks::new_with_refreshed_list ]() -> Networks;

pub assume_specification[ Networks::refresh ](
    n: &mut Networks,
    remove_not_listed_interfaces: bool,
);

/// Relies on `System::global_cpu_usage`: the aggregate usage since the last
/// CPU refresh, handed on as the bit pattern of the `f32` it returns.
#[verifier::external_body]
fn global_cpu_usage_bits(sys: &System) -> (r: u32) {
    sys.global_cpu_usage().to_bits()
}

/// Relies on `System::cpus` and `Cpu::frequency`: one clock reading in MHz
/// per logical core.
#[verifier::external_body]
fn cpu_frequencies(sys: &System) -> (r: Vec<u64>) {
    sys.cpus().iter().map(|c| c.frequency()).collect()
}

/// Relies on iterating `Networks` with `NetworkData::received` and
/// `NetworkData::transmitted`: per interface, the bytes moved since the last
/// refresh.
#[verifier::external_body]
fn interface_deltas(networks: &Networks) -> (r: Vec<InterfaceDelta>) {
    networks
        .iter()
        .map(|(_, d)| InterfaceDelta { received: d.received(), transmitted: d.transmitted() })
        .collect()
}

/// Owns every probe for the life of the process and turns each poll into one
/// snapshot. The GPU probe is opened once, at construction, and never again.
pub struct StatsCollector {
    sys: System,
    networks: Networks,
    gpu: Option<GpuMonitor>,
    has_baseline: bool,
}

impl StatsCollector {
    /// A GPU probe was opened at construction.
    pub closed spec fn gpu_available(&self) -> bool {
        self.gpu is Some
    }

    /// A poll has already happened, so network deltas have a baseline.
    pub closed spec fn has_baseline(&self) -> bool {
        self.has_baseline
    }

    /// Opens every probe once; a GPU probe that cannot be opened is recorded
    /// as absent.
    pub fn new() -> (r: StatsCollector)
        ensures
            !r.has_baseline(),
    {
        let mut sys = System::new_all();
        sys.refresh_all();
        let networks = Networks::new_with_refreshed_list();
        StatsCollector::from_probes(sys, networks, GpuMonitor::new())
    }

    /// Assembles a collector from opened probes and the outcome of opening
    /// the GPU probe: the collector has a GPU probe exactly when that
    /// succeeded, and no network baseline yet.
    pub fn from_probes(sys: System, networks: Networks, gpu: Result<GpuMonitor, String>) -> (r: StatsCollector)
        ensures
            r.gpu_available() == (gpu is Ok),
            !r.has_baseline(),
    {
        let gpu = match gpu {
            Ok(g) => Some(g),
            Err(_) => None,
        };
        StatsCollector { sys, networks, gpu, has_baseline: false }
    }

    /// Polls every probe once and merges the results. `disk` is this poll's
    /// sample of the disk probe, `None` where there is no such probe.
    ///
    /// The snapshot is that of some set of readings, with the network figures
    /// zero on the first poll and the GPU figures absent without a GPU probe;
    /// GPU availability never changes.
    pub fn collect(&mut self, disk: Option<DiskRates>) -> (r: SystemStats)
        ensures
            final(self).gpu_available() == old(self).gpu_available(),
            final(self).has_baseline(),
            polled(r, old(self).has_baseline(), disk, old(self).gpu_available()),
    {
        let ghost had_gpu = self.gpu is Some;
        self.sys.refresh_cpu_all();
        self.sys.refresh_memory();
        self.networks.refresh(false);

        let cpu = global_cpu_usage_bits(&self.sys);
        let freqs = cpu_frequencies(&self.sys);
        let used = self.sys.used_memory();
        let total = self.sys.total_memory();
        let deltas = interface_deltas(&self.networks);
        let gpu = match &mut self.gpu {
            Some(g) => g.refresh(),
            None => GpuStats::default(),
        };
        let ghost rd: Option<GpuReadings> = if had_gpu {
            choose|rd: Option<GpuReadings>|
                gpu == #[trigger] poll_stats(rd) && (rd matches Some(x) ==> readings_valid(x))
        } else {
            None
        };
        assert(gpu == poll_stats(rd));
        let primed = self.has_baseline;
        let r = assemble(cpu, &freqs, used, total, &deltas, primed, disk, gpu);
        self.has_baseline = true;
        assert(r == snapshot_of(cpu, freqs@, used, total, deltas@, primed, disk, poll_stats(rd)));
        assert(polled(r, primed, disk, had_gpu));
        r
    }
}

} // verus!
