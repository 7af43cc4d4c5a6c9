use weather_applet::applet::{
    current_icon, fetched_temperature, icon_for_hour, ConfigWrite, Message, Task, Weather,
};
use weather_applet::config::{Coordinate, WeatherConfig, MOON_ICON, SUN_ICON};
use weather_applet::weather::GeocodedPlace;

const PREFIX: &str = "https://api.met.no/weatherapi/locationforecast/2.0/compact?lat=";

fn coord(v: f64) -> Coordinate {
    Coordinate { bits: v.to_bits(), text: v.to_string() }
}

fn config(lat: f64, lon: f64, minutes: u64, name: &str) -> WeatherConfig {
    WeatherConfig {
        latitude: coord(lat),
        longitude: coord(lon),
        refresh_interval_minutes: minutes,
        location_name: name.to_string(),
    }
}

fn helsinki() -> GeocodedPlace {
    GeocodedPlace {
        name: "Helsinki".to_string(),
        latitude: coord(60.16952),
        longitude: coord(24.93545),
        admin1: Some("Uusimaa".to_string()),
        country: Some("Finland".to_string()),
    }
}

fn fetch_url(task: &Task) -> String {
    match task {
        Task::FetchForecast(url) => url.clone(),
        _ => panic!("expected a forecast request"),
    }
}

#[test]
fn init_takes_settings_and_starts_with_a_tick() {
    let (w, task) = Weather::init(config(41.902782, 12.496366, 15, "Rome"), true);
    assert_eq!(w.latitude, "41.902782");
    assert_eq!(w.longitude, "12.496366");
    assert_eq!(w.location_query, "Rome");
    assert_eq!(w.refresh_interval_minutes, 15);
    assert_eq!(w.refresh_interval_minutes_input, "15");
    assert_eq!(w.temperature, 0);
    assert!(w.popup.is_none());
    assert!(w.geocoded_places.is_empty());
    assert!(!w.geocode_error);
    assert!(matches!(task, Task::Emit(Message::Tick)));
}

#[test]
fn init_raises_a_zero_interval_to_one_minute() {
    let (w, _) = Weather::init(config(0.0, 0.0, 0, ""), false);
    assert_eq!(w.refresh_interval_minutes, 1);
    assert_eq!(w.refresh_interval_minutes_input, "1");
    assert_eq!(w.refresh_interval_secs(), 60);
}

#[test]
fn refresh_interval_in_seconds() {
    let (w, _) = Weather::init(config(0.0, 0.0, 10, ""), false);
    assert_eq!(w.refresh_interval_secs(), 600);
}

#[test]
fn tick_fetches_the_stored_coordinates() {
    let (mut w, _) = Weather::init(config(41.902782, 12.496366, 10, "Rome"), true);
    let e = w.update(Message::Tick);
    assert!(e.config_writes.is_empty());
    assert_eq!(fetch_url(&e.task), format!("{PREFIX}41.902782&lon=12.496366"));
}

#[test]
fn location_name_does_not_change_the_forecast() {
    let (mut a, _) = Weather::init(config(1.25, 2.5, 10, "Somewhere"), true);
    let (mut b, _) = Weather::init(config(1.25, 2.5, 10, ""), true);
    b.update(Message::UpdateLocationQuery("Elsewhere".to_string()));
    assert_eq!(fetch_url(&a.update(Message::Tick).task), fetch_url(&b.update(Message::Tick).task));
}

#[test]
fn temperature_updates_and_formats() {
    let (mut w, _) = Weather::init(WeatherConfig::default(), false);
    assert_eq!(w.format_temperature(), "0°C");
    let e = w.update(Message::UpdateTemperature(-12));
    assert!(matches!(e.task, Task::Nothing));
    assert_eq!(w.temperature, -12);
    assert_eq!(w.format_temperature(), "-12°C");
    w.update(Message::UpdateTemperature(i32::MIN));
    assert_eq!(w.format_temperature(), "-2147483648°C");
    w.update(Message::UpdateTemperature(23));
    assert_eq!(w.format_temperature(), "23°C");
}

#[test]
fn failed_forecast_shows_zero() {
    assert_eq!(fetched_temperature(Some(17)), 17);
    assert_eq!(fetched_temperature(Some(-3)), -3);
    assert_eq!(fetched_temperature(None), 0);
}

#[test]
fn toggle_opens_then_closes_the_popup() {
    let (mut w, _) = Weather::init(WeatherConfig::default(), false);
    let e = w.update(Message::ToggleWindow(7));
    assert!(matches!(e.task, Task::OpenPopup(7)));
    assert_eq!(w.popup, Some(7));
    let e = w.update(Message::ToggleWindow(8));
    assert!(matches!(e.task, Task::DestroyPopup(7)));
    assert_eq!(w.popup, None);
}

#[test]
fn only_the_open_popup_closing_clears_it() {
    let (mut w, _) = Weather::init(WeatherConfig::default(), false);
    w.update(Message::ToggleWindow(3));
    w.update(Message::PopupClosed(4));
    assert_eq!(w.popup, Some(3));
    let e = w.update(Message::PopupClosed(3));
    assert!(matches!(e.task, Task::Nothing));
    assert_eq!(w.popup, None);
}

#[test]
fn search_clears_results_and_asks_for_the_query() {
    let (mut w, _) = Weather::init(WeatherConfig::default(), false);
    w.update(Message::GeocodeCompleted(Ok(vec![helsinki()])));
    w.update(Message::GeocodeCompleted(Err("offline".to_string())));
    assert!(w.geocode_error);
    w.update(Message::UpdateLocationQuery("Helsinki".to_string()));
    let e = w.update(Message::SearchLocation);
    assert!(w.geocoded_places.is_empty());
    assert!(!w.geocode_error);
    match e.task {
        Task::SearchPlaces(q) => assert_eq!(q, "Helsinki"),
        _ => panic!("expected a search"),
    }
    w.update(Message::GeocodeCompleted(Ok(vec![helsinki(), helsinki()])));
    assert_eq!(w.geocoded_places.len(), 2);
    assert!(!w.geocode_error);
}

#[test]
fn failed_search_shows_the_error() {
    let (mut w, _) = Weather::init(WeatherConfig::default(), false);
    w.update(Message::SearchLocation);
    let e = w.update(Message::GeocodeCompleted(Err("timeout".to_string())));
    assert!(e.config_writes.is_empty());
    assert!(w.geocode_error);
    assert!(w.geocoded_places.is_empty());
}

#[test]
fn selecting_a_place_stores_it_and_fetches_its_forecast() {
    let (mut w, _) = Weather::init(WeatherConfig::default(), true);
    w.update(Message::GeocodeCompleted(Ok(vec![helsinki()])));
    let e = w.update(Message::SelectGeocodedPlace(helsinki()));
    assert_eq!(w.location_query, "Helsinki, Uusimaa, Finland");
    assert_eq!(w.latitude, "60.16952");
    assert_eq!(w.longitude, "24.93545");
    assert!(w.geocoded_places.is_empty());
    assert_eq!(w.config.latitude.text, "60.16952");
    assert_eq!(w.config.location_name, "Helsinki, Uusimaa, Finland");
    assert_eq!(e.config_writes.len(), 3);
    assert!(matches!(&e.config_writes[0], ConfigWrite::Latitude(c) if c.text == "60.16952"));
    assert!(matches!(&e.config_writes[1], ConfigWrite::Longitude(c) if c.text == "24.93545"));
    assert!(matches!(&e.config_writes[2], ConfigWrite::LocationName(n) if n == "Helsinki, Uusimaa, Finland"));
    assert_eq!(fetch_url(&e.task), format!("{PREFIX}60.16952&lon=24.93545"));
    // Choosing it again changes nothing, so nothing is written.
    let e = w.update(Message::SelectGeocodedPlace(helsinki()));
    assert!(e.config_writes.is_empty());
}

#[test]
fn without_a_store_selecting_keeps_the_settings() {
    let (mut w, _) = Weather::init(config(1.0, 2.0, 10, "Old"), false);
    let e = w.update(Message::SelectGeocodedPlace(helsinki()));
    assert!(e.config_writes.is_empty());
    assert_eq!(w.latitude, "60.16952");
    assert_eq!(w.config.latitude.text, "1");
    assert_eq!(w.config.location_name, "Old");
    assert_eq!(fetch_url(&e.task), format!("{PREFIX}1&lon=2"));
}

#[test]
fn typing_a_latitude_clears_the_search_and_stores_the_value() {
    let (mut w, _) = Weather::init(config(1.0, 2.0, 10, "Old"), true);
    w.update(Message::GeocodeCompleted(Ok(vec![helsinki()])));
    let e = w.update(Message::UpdateLatitude("45.5".to_string(), coord(45.5)));
    assert_eq!(w.latitude, "45.5");
    assert_eq!(w.location_query, "");
    assert!(w.geocoded_places.is_empty());
    assert_eq!(w.config.latitude.text, "45.5");
    assert_eq!(w.config.location_name, "");
    assert_eq!(e.config_writes.len(), 2);
    assert!(matches!(&e.config_writes[1], ConfigWrite::LocationName(n) if n.is_empty()));
    assert_eq!(fetch_url(&e.task), format!("{PREFIX}45.5&lon=2"));
}

#[test]
fn typing_text_that_is_no_number_stores_zero() {
    let (mut w, _) = Weather::init(config(1.0, 2.0, 10, ""), true);
    let e = w.update(Message::UpdateLongitude("abc".to_string(), coord(0.0)));
    assert_eq!(w.longitude, "abc");
    assert_eq!(w.config.longitude.text, "0");
    assert_eq!(e.config_writes.len(), 1);
    assert_eq!(fetch_url(&e.task), format!("{PREFIX}1&lon=0"));
}

#[test]
fn refresh_interval_accepts_whole_numbers_only() {
    let (mut w, _) = Weather::init(WeatherConfig::default(), true);
    let e = w.update(Message::UpdateRefreshIntervalMinutes("30".to_string()));
    assert_eq!(w.refresh_interval_minutes, 30);
    assert_eq!(w.config.refresh_interval_minutes, 30);
    assert!(matches!(e.config_writes[..], [ConfigWrite::RefreshIntervalMinutes(30)]));
    for text in ["", "abc", "-5", " 5", "5 ", "1.5", "+", "18446744073709551616"] {
        let e = w.update(Message::UpdateRefreshIntervalMinutes(text.to_string()));
        assert!(e.config_writes.is_empty());
        assert_eq!(w.refresh_interval_minutes, 30, "{text:?}");
        assert_eq!(w.refresh_interval_minutes_input, text);
    }
    w.update(Message::UpdateRefreshIntervalMinutes("+07".to_string()));
    assert_eq!(w.refresh_interval_minutes, 7);
    w.update(Message::UpdateRefreshIntervalMinutes("0".to_string()));
    assert_eq!(w.refresh_interval_minutes, 1);
    w.update(Message::UpdateRefreshIntervalMinutes("18446744073709551615".to_string()));
    assert_eq!(w.refresh_interval_minutes, u64::MAX);
}

#[test]
fn without_a_store_the_interval_changes_but_not_the_settings() {
    let (mut w, _) = Weather::init(WeatherConfig::default(), false);
    let e = w.update(Message::UpdateRefreshIntervalMinutes("5".to_string()));
    assert!(e.config_writes.is_empty());
    assert_eq!(w.refresh_interval_minutes, 5);
    assert_eq!(w.config.refresh_interval_minutes, 10);
}

#[test]
fn icon_follows_the_hour() {
    assert_eq!(icon_for_hour(5), MOON_ICON);
    assert_eq!(icon_for_hour(6), SUN_ICON);
    assert_eq!(icon_for_hour(17), SUN_ICON);
    assert_eq!(icon_for_hour(18), MOON_ICON);
    assert_eq!(icon_for_hour(0), MOON_ICON);
    let now = current_icon();
    assert!(now == SUN_ICON || now == MOON_ICON);
}
