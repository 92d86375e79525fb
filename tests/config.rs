use stats_overlay::config::{
    default_font_family, default_font_size, default_metrics_order, default_position_y,
    default_text_color, default_true, overlay_x, MetricsConfig, PreferencesConfig,
};

#[test]
fn metric_defaults() {
    let m = MetricsConfig::default();
    assert!(m.cpu && !m.cpu_freq && m.ram && m.ram_gb && m.gpu);
    assert!(!m.gpu_temp && !m.gpu_power && !m.gpu_clock && !m.vram);
    assert!(m.disk_io && !m.net_io);
    assert!(!PreferencesConfig::default().start_with_windows);
}

#[test]
fn appearance_defaults() {
    assert!(default_true());
    assert_eq!(default_position_y(), 15);
    assert_eq!(default_text_color(), "#CCCCCC");
    assert_eq!(default_font_family(), "Arial");
    assert_eq!(default_font_size(), 9);
}

#[test]
fn metric_order_default() {
    let order = default_metrics_order();
    let expected = [
        "cpu", "cpu_freq", "ram", "ram_gb", "gpu", "gpu_temp", "gpu_power", "gpu_clock", "vram",
        "disk_io", "net_io",
    ];
    assert_eq!(order, expected.iter().map(|s| s.to_string()).collect::<Vec<_>>());
}

#[test]
fn set_known_metric() {
    let mut m = MetricsConfig::default();
    assert!(m.set_metric("net_io", true).is_ok());
    assert!(m.net_io);
    assert!(m.set_metric("cpu", false).is_ok());
    assert!(!m.cpu);
    let mut expected = MetricsConfig::default();
    expected.net_io = true;
    expected.cpu = false;
    assert_eq!(m, expected);
}

#[test]
fn unknown_metric_is_refused() {
    let mut m = MetricsConfig::default();
    let e = m.set_metric("fan_speed", true).unwrap_err();
    assert_eq!(e.key, "fan_speed");
    assert_eq!(m, MetricsConfig::default());
}

#[test]
fn overlay_position() {
    assert_eq!(overlay_x(Some(42), Some(2560)), 42);
    assert_eq!(overlay_x(None, Some(2560)), 1845);
    assert_eq!(overlay_x(None, None), 1205);
    assert_eq!(overlay_x(None, Some(i32::MIN)), i32::MIN);
}
