use weather_applet::config::{
    Coordinate, V1WeatherConfig, V2WeatherConfig, WeatherConfig, APP_ID, CONFIG_VERSION,
    MOON_ICON, SUN_ICON,
};

fn coord(v: f64) -> Coordinate {
    Coordinate { bits: v.to_bits(), text: v.to_string() }
}

#[test]
fn default_config_is_zero_ten_minutes_no_name() {
    let c = WeatherConfig::default();
    assert_eq!(c.latitude.text, "0");
    assert_eq!(c.latitude.bits, 0.0f64.to_bits());
    assert_eq!(c.longitude.text, "0");
    assert_eq!(c.refresh_interval_minutes, 10);
    assert_eq!(c.location_name, "");
}

#[test]
fn constants() {
    assert_eq!(CONFIG_VERSION, 3);
    assert_eq!(APP_ID, "io.github.cosmic_utils.weather-applet");
    assert!(SUN_ICON.ends_with("-sun"));
    assert!(MOON_ICON.ends_with("-moon"));
}

#[test]
fn migration_from_v2_keeps_interval() {
    let v2 = V2WeatherConfig {
        latitude: coord(41.902782),
        longitude: coord(12.496366),
        refresh_interval_minutes: 25,
    };
    let c = WeatherConfig::migrate_from_v2(v2);
    assert_eq!(c.latitude.text, "41.902782");
    assert_eq!(c.longitude.text, "12.496366");
    assert_eq!(c.refresh_interval_minutes, 25);
    assert_eq!(c.location_name, "");
}

#[test]
fn migration_from_v1_uses_default_interval() {
    let v1 = V1WeatherConfig { latitude: coord(1.5), longitude: coord(-2.25), use_fahrenheit: true };
    let c = WeatherConfig::migrate_from_v1(v1);
    assert_eq!(c.latitude.text, "1.5");
    assert_eq!(c.longitude.text, "-2.25");
    assert_eq!(c.refresh_interval_minutes, 10);
    assert_eq!(c.location_name, "");
    let d = V1WeatherConfig::default();
    assert_eq!(d.latitude.text, "0");
    assert!(!d.use_fahrenheit);
}

#[test]
fn config_prefers_current_then_v2_then_v1_then_default() {
    let current = WeatherConfig {
        latitude: coord(5.0),
        longitude: coord(6.0),
        refresh_interval_minutes: 3,
        location_name: "Here".to_string(),
    };
    let v2 = || V2WeatherConfig { latitude: coord(7.0), longitude: coord(8.0), refresh_interval_minutes: 4 };
    let v1 = || V1WeatherConfig { latitude: coord(9.0), longitude: coord(10.0), use_fahrenheit: false };
    let c = WeatherConfig::config(Some(current), Some(v2()), Some(v1()));
    assert_eq!(c.location_name, "Here");
    assert_eq!(c.refresh_interval_minutes, 3);
    let c = WeatherConfig::config(None, Some(v2()), Some(v1()));
    assert_eq!(c.latitude.text, "7");
    assert_eq!(c.refresh_interval_minutes, 4);
    let c = WeatherConfig::config(None, None, Some(v1()));
    assert_eq!(c.latitude.text, "9");
    assert_eq!(c.refresh_interval_minutes, 10);
    let c = WeatherConfig::config(None, None, None);
    assert_eq!(c.latitude.text, "0");
    assert_eq!(c.refresh_interval_minutes, 10);
}

#[test]
fn setters_report_changes_by_value() {
    let mut c = WeatherConfig::default();
    assert!(!c.set_latitude(coord(0.0)));
    // -0.0 equals 0.0, so nothing changes.
    assert!(!c.set_latitude(coord(-0.0)));
    assert_eq!(c.latitude.text, "0");
    assert!(c.set_latitude(coord(12.5)));
    assert_eq!(c.latitude.text, "12.5");
    // NaN never equals anything, itself included.
    assert!(c.set_longitude(coord(f64::NAN)));
    assert!(c.set_longitude(coord(f64::NAN)));
    assert!(!c.set_refresh_interval_minutes(10));
    assert!(c.set_refresh_interval_minutes(11));
    assert_eq!(c.refresh_interval_minutes, 11);
    assert!(!c.set_location_name(String::new()));
    assert!(c.set_location_name("Oslo".to_string()));
    assert_eq!(c.location_name, "Oslo");
}

#[test]
fn same_value_is_float_equality() {
    for (a, b) in [(0.0f64, -0.0f64), (1.0, 1.0), (1.0, 2.0), (f64::NAN, f64::NAN), (f64::INFINITY, f64::INFINITY), (f64::NAN, 1.0)] {
        assert_eq!(coord(a).same_value(&coord(b)), a == b, "{a} vs {b}");
    }
}
