use vstd::prelude::*;

verus! {

/// Which snapshot fields the overlay shows. It governs display only: the
/// collector computes every field regardless.
#[derive(Clone, Copy, Debug, PartialEq, Eq, Structural)]
pub struct MetricsConfig {
    pub cpu: bool,
    pub cpu_freq: bool,
    pub ram: bool,
    pub ram_gb: bool,
    pub gpu: bool,
    pub gpu_temp: bool,
    pub gpu_power: bool,
    pub gpu_clock: bool,
    pub vram: bool,
    pub disk_io: bool,
    pub net_io: bool,
}

/// User preferences outside the overlay itself.
#[derive(Clone, Copy, Debug, PartialEq, Eq, Structural)]
pub struct PreferencesConfig {
    pub start_with_windows: bool,
}

/// A metric key that names no field of [`MetricsConfig`].
#[derive(Debug)]
pub struct UnknownMetric {
    pub key: String,
}

/// The metric keys, in their default display order.
pub open spec fn metric_keys() -> Seq<Seq<char>> {
    seq![
        "cpu"@,
        "cpu_freq"@,
        "ram"@,
        "ram_gb"@,
        "gpu"@,
        "gpu_temp"@,
        "gpu_power"@,
        "gpu_clock"@,
        "vram"@,
        "disk_io"@,
        "net_io"@,
    ]
}

/// The default overlay height offset, in pixels.
pub const DEFAULT_POSITION_Y: i32 = 15;

/// The default font size, in points.
pub const DEFAULT_FONT_SIZE: u32 = 9;

/// Nominal width of the overlay window, in pixels.
pub const OVERLAY_WIDTH: i32 = 700;

/// Gap between the overlay and the screen's right edge, in pixels.
pub const OVERLAY_MARGIN: i32 = 15;

/// Screen width assumed where the monitor cannot be queried, in pixels.
pub const FALLBACK_SCREEN_WIDTH: i32 = 1920;

impl MetricsConfig {
    /// The flag at position `i` of the key order.
    pub open spec fn flag_at(&self, i: int) -> bool {
        if i == 0 {
            self.cpu
        } else if i == 1 {
            self.cpu_freq
        } else if i == 2 {
            self.ram
        } else if i == 3 {
            self.ram_gb
        } else if i == 4 {
            self.gpu
        } else if i == 5 {
            self.gpu_temp
        } else if i == 6 {
            self.gpu_power
        } else if i == 7 {
            self.gpu_clock
        } else if i == 8 {
            self.vram
        } else if i == 9 {
            self.disk_io
        } else {
            self.net_io
        }
    }

    /// This configuration with the flag at position `i` set to `enabled`.
    pub open spec fn with_flag_at(self, i: int, enabled: bool) -> MetricsConfig {
        if i == 0 {
            MetricsConfig { cpu: enabled, ..self }
        } else if i == 1 {
            MetricsConfig { cpu_freq: enabled, ..self }
        } else if i == 2 {
            MetricsConfig { ram: enabled, ..self }
        } else if i == 3 {
            MetricsConfig { ram_gb: enabled, ..self }
        } else if i == 4 {
            MetricsConfig { gpu: enabled, ..self }
        } else if i == 5 {
            MetricsConfig { gpu_temp: enabled, ..self }
        } else if i == 6 {
            MetricsConfig { gpu_power: enabled, ..self }
        } else if i == 7 {
            MetricsConfig { gpu_clock: enabled, ..self }
        } else if i == 8 {
            MetricsConfig { vram: enabled, ..self }
        } else if i == 9 {
            MetricsConfig { disk_io: enabled, ..self }
        } else {
            MetricsConfig { net_io: enabled, ..self }
        }
    }

    fn updated(self, i: usize, enabled: bool) -> (r: MetricsConfig)
        requires
            i < 11,
        ensures
            r == self.with_flag_at(i as int, enabled),
    {
        let mut c = self;
        if i == 0 {
            c.cpu = enabled;
        } else if i == 1 {
            c.cpu_freq = enabled;
        } else if i == 2 {
            c.ram = enabled;
        } else if i == 3 {
            c.ram_gb = enabled;
        } else if i == 4 {
            c.gpu = enabled;
        } else if i == 5 {
            c.gpu_temp = enabled;
        } else if i == 6 {
            c.gpu_power = enabled;
        } else if i == 7 {
            c.gpu_clock = enabled;
        } else if i == 8 {
            c.vram = enabled;
        } else if i == 9 {
            c.disk_io = enabled;
        } else {
            c.net_io = enabled;
        }
        c
    }

    /// Turns the metric named `key` on or off: the flag at the first position
    /// of the key order that holds `key`. A key that names no flag is refused
    /// and leaves the configuration as it was.
    pub fn set_metric(&mut self, key: &str, enabled: bool) -> (r: Result<(), UnknownMetric>)
        ensures
            r is Ok <==> metric_keys().contains(key@),
            r is Ok ==> exists|i: int|
                0 <= i < metric_keys().len() && metric_keys()[i] == key@
                    && (forall|j: int| 0 <= j < i ==> metric_keys()[j] != key@)
                    && #[trigger] old(self).with_flag_at(i, enabled) == *final(self),
            r is Err ==> *final(self) == *old(self) && r->Err_0.key@ == key@,
    {
        let k = key.to_owned();
        let order = default_metrics_order();
        let mut i: usize = 0;
        while i < order.len()
            invariant
                order@.len() == metric_keys().len(),
                forall|j: int| 0 <= j < order@.len() ==> #[trigger] order@[j]@ == metric_keys()[j],
                k@ == key@,
                i <= order@.len(),
                forall|j: int| 0 <= j < i ==> metric_keys()[j] != key@,
                *self == *old(self),
            decreases order@.len() - i,
        {
            if k.eq(&order[i]) {
                *self = self.updated(i, enabled);
                assert(metric_keys()[i as int] == key@);
                return Ok(());
            }
            i = i + 1;
        }
        return Err(UnknownMetric { key: k });
    }
}

impl Default for MetricsConfig {
    fn default() -> (r: Self)
        ensures
            r == (MetricsConfig {
                cpu: true,
                cpu_freq: false,
                ram: true,
                ram_gb: true,
                gpu: true,
                gpu_temp: false,
                gpu_power: false,
                gpu_clock: false,
                vram: false,
                disk_io: true,
                net_io: false,
            }),
    {
        MetricsConfig {
            cpu: true,
            cpu_freq: false,
            ram: true,
            ram_gb: true,
            gpu: true,
            gpu_temp: false,
            gpu_power: false,
            gpu_clock: false,
            vram: false,
            disk_io: true,
            net_io: false,
        }
    }
}

impl Default for PreferencesConfig {
    fn default() -> (r: Self)
        ensures
            !r.start_with_windows,
    {
        PreferencesConfig { start_with_windows: false }
    }
}

/// Default for a flag that is on unless configured otherwise.
pub fn default_true() -> (r: bool)
    ensures
        r,
{
    true
}

/// Default vertical offset of the overlay.
pub fn default_position_y() -> (r: i32)
    ensures
        r == DEFAULT_POSITION_Y,
{
    DEFAULT_POSITION_Y
}

/// Default text colour of the overlay.
pub fn default_text_color() -> (r: String)
    ensures
        r@ == "#CCCCCC"@,
{
    "#CCCCCC".to_owned()
}

/// Default font family of the overlay.
pub fn default_font_family() -> (r: String)
    ensures
        r@ == "Arial"@,
{
    "Arial".to_owned()
}

/// Default font size of the overlay.
pub fn default_font_size() -> (r: u32)
    ensures
        r == DEFAULT_FONT_SIZE,
{
    DEFAULT_FONT_SIZE
}

/// Every metric key once, in the default display order.
pub fn default_metrics_order() -> (r: Vec<String>)
    ensures
        r@.len() == metric_keys().len(),
        forall|i: int| 0 <= i < r@.len() ==> #[trigger] r@[i]@ == metric_keys()[i],
{
    let mut v: Vec<String> = Vec::new();
    v.push("cpu".to_owned());
    v.push("cpu_freq".to_owned());
    v.push("ram".to_owned());
    v.push("ram_gb".to_owned());
    v.push("gpu".to_owned());
    v.push("gpu_temp".to_owned());
    v.push("gpu_power".to_owned());
    v.push("gpu_clock".to_owned());
    v.push("vram".to_owned());
    v.push("disk_io".to_owned());
    v.push("net_io".to_owned());
    v
}

/// Horizontal position of the overlay: the configured one, or else the
/// overlay's width and margin in from the right edge of the screen (of the
/// fallback width where the screen's is unknown), held to what an `i32` holds.
pub fn overlay_x(position_x: Option<i32>, screen_width: Option<i32>) -> (r: i32)
    ensures
        position_x is Some ==> r == position_x->Some_0,
        position_x is None ==> r as int == {
            let w = match screen_width {
                Some(w) => w as int,
                None => FALLBACK_SCREEN_WIDTH as int,
            };
            if w - 715 < i32::MIN { i32::MIN as int } else { w - 715 }
        },
{
    match position_x {
        Some(x) => x,
        None => {
            let w = match screen_width {
                Some(w) => w,
                None => FALLBACK_SCREEN_WIDTH,
            };
            if w >= i32::MIN + OVERLAY_WIDTH + OVERLAY_MARGIN {
                w - OVERLAY_WIDTH - OVERLAY_MARGIN
            } else {
                i32::MIN
            }
        },
    }
}

} // verus!
