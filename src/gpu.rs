use nvml_wrapper::enum_wrappers::device::{Clock, TemperatureSensor};
use nvml_wrapper::{Device, Nvml};
use vstd::prelude::*;
use vstd::string::StringExecFns;

verus! {

/// Bytes in one mebibyte.
pub const BYTES_PER_MIB: u64 = 1048576;

/// Milliwatts in one watt.
pub const MILLIWATTS_PER_WATT: u32 = 1000;

/// Frame-buffer usage of a GPU, in bytes.
#[derive(Clone, Copy, Debug, PartialEq, Eq, Structural)]
pub struct GpuMemory {
    pub used_bytes: u64,
    pub total_bytes: u64,
}

/// The raw outcome of one poll of the primary GPU: each query is made on its
/// own, and a field is `None` exactly when its query failed.
#[derive(Clone, Copy, Debug, PartialEq, Eq, Structural)]
pub struct GpuReadings {
    pub utilization_percent: Option<u32>,
    pub temperature_c: Option<u32>,
    pub power_mw: Option<u32>,
    pub graphics_clock_mhz: Option<u32>,
    pub memory: Option<GpuMemory>,
}

/// GPU figures of one snapshot, in display units.
#[derive(Clone, Copy, Debug, PartialEq, Eq, Structural)]
pub struct GpuStats {
    pub percent: Option<u32>,
    pub temp: Option<u32>,
    pub power_w: Option<u32>,
    pub clock_mhz: Option<u32>,
    pub vram_used_mb: Option<u32>,
    pub vram_total_mb: Option<u32>,
}

/// Whole mebibytes in `bytes`, truncated to 32 bits.
pub open spec fn mib_of(bytes: u64) -> u32 {
    (bytes / BYTES_PER_MIB) as u32
}

/// Whole watts in `mw` milliwatts.
pub open spec fn watts_of(mw: u32) -> u32 {
    (mw / MILLIWATTS_PER_WATT) as u32
}

/// The stats that a set of readings converts to, field by field.
pub open spec fn stats_of(rd: GpuReadings) -> GpuStats {
    GpuStats {
        percent: rd.utilization_percent,
        temp: rd.temperature_c,
        power_w: match rd.power_mw {
            Some(mw) => Some(watts_of(mw)),
            None => None,
        },
        clock_mhz: rd.graphics_clock_mhz,
        vram_used_mb: match rd.memory {
            Some(m) => Some(mib_of(m.used_bytes)),
            None => None,
        },
        vram_total_mb: match rd.memory {
            Some(m) => Some(mib_of(m.total_bytes)),
            None => None,
        },
    }
}

/// The stats of one poll: all absent where the device could not be reached,
/// else the conversion of its readings.
pub open spec fn poll_stats(rd: Option<GpuReadings>) -> GpuStats {
    match rd {
        Some(x) => stats_of(x),
        None => GpuStats {
            percent: None,
            temp: None,
            power_w: None,
            clock_mhz: None,
            vram_used_mb: None,
            vram_total_mb: None,
        },
    }
}

/// Readings as the driver documents them: utilization is a percentage.
pub open spec fn readings_valid(rd: GpuReadings) -> bool {
    rd.utilization_percent matches Some(p) ==> p <= 100
}

/// The error text for a driver that failed to start, with the driver's own
/// description `detail`.
pub open spec fn init_failure(detail: Seq<char>) -> Seq<char> {
    "NVML init failed: "@ + detail
}

/// The error text for a driver without a device at index 0.
pub open spec fn no_device() -> Seq<char> {
    "NVML found no GPU at device index 0"@
}

impl GpuStats {
    /// Every field is absent.
    pub open spec fn is_absent(&self) -> bool {
        &&& self.percent is None
        &&& self.temp is None
        &&& self.power_w is None
        &&& self.clock_mhz is None
        &&& self.vram_used_mb is None
        &&& self.vram_total_mb is None
    }

    /// Converts one poll's readings; a failed reading leaves only its own
    /// fields absent.
    pub fn from_readings(rd: GpuReadings) -> (r: GpuStats)
        ensures
            r == stats_of(rd),
    {
        let power_w = match rd.power_mw {
            Some(mw) => Some(mw / MILLIWATTS_PER_WATT),
            None => None,
        };
        let (vram_used_mb, vram_total_mb) = match rd.memory {
            Some(m) => (Some(to_mib(m.used_bytes)), Some(to_mib(m.total_bytes))),
            None => (None, None),
        };
        GpuStats {
            percent: rd.utilization_percent,
            temp: rd.temperature_c,
            power_w,
            clock_mhz: rd.graphics_clock_mhz,
            vram_used_mb,
            vram_total_mb,
        }
    }
}

/// The stats of one poll, given its readings, or `None` where the device
/// could not be reached.
pub fn stats_for(rd: Option<GpuReadings>) -> (r: GpuStats)
    ensures
        r == poll_stats(rd),
        rd is None ==> r.is_absent(),
{
    match rd {
        Some(x) => GpuStats::from_readings(x),
        None => GpuStats::default(),
    }
}

impl Default for GpuStats {
    fn default() -> (r: Self)
        ensures
            r.is_absent(),
    {
        GpuStats {
            percent: None,
            temp: None,
            power_w: None,
            clock_mhz: None,
            vram_used_mb: None,
            vram_total_mb: None,
        }
    }
}

fn to_mib(bytes: u64) -> (r: u32)
    ensures
        r == mib_of(bytes),
{
    let mib: u64 = bytes / BYTES_PER_MIB;
    (#[verifier::truncate] (mib as u32))
}

#[verifier::external_type_specification]
#[verifier::external_body]
pub struct ExNvml(Nvml);

#[verifier::external_type_specification]
#[verifier::external_body]
pub struct ExDevice<'nvml>(Device<'nvml>);

/// Relies on `Nvml::init`: loads the vendor driver library and initialises it,
/// or gives the `Display` text of its error. The outcome depends on the
/// machine, so nothing is promised of it.
#[verifier::external_body]
fn nvml_init() -> (r: Result<Nvml, String>) {
    Nvml::init().map_err(|e| e.to_string())
}

/// Relies on `Nvml::device_by_index`: a handle to the device at `index`, or
/// `None` where the driver has none there.
#[verifier::external_body]
fn device_at<'a>(nvml: &'a Nvml, index: u32) -> (r: Option<Device<'a>>) {
    nvml.device_by_index(index).ok()
}

/// Relies on `Device::utilization_rates`: the `gpu` field of the result,
/// which NVML documents as a percentage of the sample period.
#[verifier::external_body]
fn query_utilization(device: &Device) -> (r: Option<u32>)
    ensures
        r matches Some(p) ==> p <= 100,
{
    device.utilization_rates().ok().map(|u| u.gpu)
}

/// Relies on `Device::temperature` for the GPU die sensor, in degrees Celsius.
#[verifier::external_body]
fn query_temperature(device: &Device) -> (r: Option<u32>) {
    device.temperature(TemperatureSensor::Gpu).ok()
}

/// Relies on `Device::power_usage`: the power draw in milliwatts.
#[verifier::external_body]
fn query_power_mw(device: &Device) -> (r: Option<u32>) {
    device.power_usage().ok()
}

/// Relies on `Device::clock_info` for the graphics clock, in MHz.
#[verifier::external_body]
fn query_graphics_clock(device: &Device) -> (r: Option<u32>) {
    device.clock_info(Clock::Graphics).ok()
}

/// Relies on `Device::memory_info`: its `used` and `total` byte counts.
#[verifier::external_body]
fn query_memory(device: &Device) -> (r: Option<GpuMemory>) {
    device.memory_info().ok().map(|m| GpuMemory { used_bytes: m.used, total_bytes: m.total })
}

/// Reads every GPU query once, each on its own, so that one failure leaves
/// the others untouched.
pub fn read_device(device: &Device) -> (r: GpuReadings)
    ensures
        readings_valid(r),
{
    GpuReadings {
        utilization_percent: query_utilization(device),
        temperature_c: query_temperature(device),
        power_mw: query_power_mw(device),
        graphics_clock_mhz: query_graphics_clock(device),
        memory: query_memory(device),
    }
}

/// A telemetry session with the vendor GPU driver, bound to device index 0.
pub struct GpuMonitor {
    nvml: Nvml,
}

fn init_failure_message(detail: String) -> (r: String)
    ensures
        r@ == init_failure(detail@),
{
    "NVML init failed: ".to_owned().concat(detail.as_str())
}

impl GpuMonitor {
    /// Opens the driver session and checks that device 0 exists; fails where
    /// the driver cannot start or has no device there.
    pub fn new() -> (r: Result<GpuMonitor, String>)
        ensures
            r is Err ==> r->Err_0@ == no_device() || exists|d: Seq<char>|
                r->Err_0@ == #[trigger] init_failure(d),
    {
        GpuMonitor::from_session(nvml_init())
    }

    /// Binds a started (or failed) driver session to device 0. A failed start
    /// is reported with the driver's description; a session without device 0
    /// is refused.
    pub fn from_session(session: Result<Nvml, String>) -> (r: Result<GpuMonitor, String>)
        ensures
            session is Err ==> r is Err && r->Err_0@ == init_failure(session->Err_0@),
            session is Ok ==> (r is Ok || r->Err_0@ == no_device()),
    {
        match session {
            Err(detail) => Err(init_failure_message(detail)),
            Ok(nvml) => {
                let found = device_at(&nvml, 0).is_some();
                if found {
                    Ok(GpuMonitor { nvml })
                } else {
                    Err("NVML found no GPU at device index 0".to_owned())
                }
            },
        }
    }

    /// Polls the primary GPU: every field is absent where the device cannot
    /// be reached this poll, otherwise each field is the conversion of its
    /// own reading.
    pub fn refresh(&mut self) -> (r: GpuStats)
        ensures
            *final(self) == *old(self),
            exists|rd: Option<GpuReadings>|
                r == #[trigger] poll_stats(rd) && (rd matches Some(x) ==> readings_valid(x)),
    {
        let rd = match device_at(&self.nvml, 0) {
            Some(device) => Some(read_device(&device)),
            None => None,
        };
        let r = stats_for(rd);
        assert(r == poll_stats(rd));
        r
    }
}

} // verus!
