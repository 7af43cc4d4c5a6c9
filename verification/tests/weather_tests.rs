use weather_applet::config::Coordinate;
use weather_applet::weather::{
    forecast_url, geocode_query, GeocodedPlace, GeocodingResponse, GeocodingResult,
    Timeseries, WeatherApiResponse, GEOCODING_URL,
};

fn coord(v: f64) -> Coordinate {
    Coordinate { bits: v.to_bits(), text: v.to_string() }
}

fn place(name: &str, admin1: Option<&str>, country: Option<&str>) -> GeocodedPlace {
    GeocodedPlace {
        name: name.to_string(),
        latitude: coord(60.16952),
        longitude: coord(24.93545),
        admin1: admin1.map(|s| s.to_string()),
        country: country.map(|s| s.to_string()),
    }
}

#[test]
fn label_joins_name_region_and_country() {
    let p = place("Helsinki", Some("Uusimaa"), Some("Finland"));
    assert_eq!(p.label(), "Helsinki, Uusimaa, Finland");
}

#[test]
fn label_skips_missing_and_empty_parts() {
    assert_eq!(place("Rome", None, Some("Italy")).label(), "Rome, Italy");
    assert_eq!(place("Rome", Some(""), Some("Italy")).label(), "Rome, Italy");
    assert_eq!(place("Rome", Some("Lazio"), Some("")).label(), "Rome, Lazio");
    assert_eq!(place("Rome", None, None).label(), "Rome");
    assert_eq!(place("", None, None).label(), "");
}

#[test]
fn forecast_url_holds_both_coordinates() {
    assert_eq!(
        forecast_url("41.902782", "12.496366"),
        "https://api.met.no/weatherapi/locationforecast/2.0/compact?lat=41.902782&lon=12.496366"
    );
    assert_eq!(
        forecast_url(&0.0f64.to_string(), &(-3.5f64).to_string()),
        "https://api.met.no/weatherapi/locationforecast/2.0/compact?lat=0&lon=-3.5"
    );
}

#[test]
fn current_temperature_is_first_entry_or_zero() {
    let r = WeatherApiResponse {
        timeseries: vec![Timeseries { air_temperature: -7 }, Timeseries { air_temperature: 3 }],
    };
    assert_eq!(r.current_temperature(), -7);
    let empty = WeatherApiResponse { timeseries: vec![] };
    assert_eq!(empty.current_temperature(), 0);
}

#[test]
fn blank_query_makes_no_search() {
    assert!(geocode_query("").is_none());
    assert!(geocode_query("   \t\n").is_none());
    assert!(geocode_query("\u{3000}\u{a0}").is_none());
}

#[test]
fn search_parameters_hold_the_trimmed_name() {
    let params = geocode_query("  Helsinki \n").unwrap();
    let expected: Vec<(String, String)> = vec![
        ("name".to_string(), "Helsinki".to_string()),
        ("count".to_string(), "5".to_string()),
        ("language".to_string(), "en".to_string()),
        ("format".to_string(), "json".to_string()),
    ];
    assert_eq!(params, expected);
    assert_eq!(GEOCODING_URL, "https://geocoding-api.open-meteo.com/v1/search");
}

#[test]
fn inner_white_space_stays_in_the_query() {
    let params = geocode_query("\u{2003}New York\u{2003}").unwrap();
    assert_eq!(params[0].1, "New York");
}

#[test]
fn geocoding_answer_becomes_places_in_order() {
    let response = GeocodingResponse {
        results: Some(vec![
            GeocodingResult {
                name: "Paris".to_string(),
                latitude: coord(48.85341),
                longitude: coord(2.3488),
                admin1: Some("Île-de-France".to_string()),
                country: Some("France".to_string()),
            },
            GeocodingResult {
                name: "Paris".to_string(),
                latitude: coord(33.66094),
                longitude: coord(-95.55551),
                admin1: Some("Texas".to_string()),
                country: None,
            },
        ]),
    };
    let places = response.places();
    assert_eq!(places.len(), 2);
    assert_eq!(places[0].label(), "Paris, Île-de-France, France");
    assert_eq!(places[1].label(), "Paris, Texas");
    assert_eq!(places[1].latitude.text, "33.66094");
    assert_eq!(places[1].longitude.bits, (-95.55551f64).to_bits());
}

#[test]
fn geocoding_answer_without_results_has_no_places() {
    let response = GeocodingResponse { results: None };
    assert!(response.places().is_empty());
    let response = GeocodingResponse { results: Some(vec![]) };
    assert!(response.places().is_empty());
}
