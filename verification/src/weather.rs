//! Places and forecasts: what the applet asks the geocoding and forecast services
//! for, and what it keeps of their answers.
use vstd::prelude::*;
use crate::config::{Coordinate, CoordinateView};
use crate::text::{trim, trimmed};

verus! {

/// A place found by a location search.
#[derive(Debug)]
pub struct GeocodedPlace {
    pub name: String,
    pub latitude: Coordinate,
    pub longitude: Coordinate,
    pub admin1: Option<String>,
    pub country: Option<String>,
}

/// Model of a [`GeocodedPlace`].
pub struct GeocodedPlaceView {
    pub name: Seq<char>,
    pub latitude: CoordinateView,
    pub longitude: CoordinateView,
    pub admin1: Option<Seq<char>>,
    pub country: Option<Seq<char>>,
}

impl View for GeocodedPlace {
    type V = GeocodedPlaceView;

    open spec fn view(&self) -> GeocodedPlaceView {
        GeocodedPlaceView {
            name: self.name@,
            latitude: self.latitude@,
            longitude: self.longitude@,
            admin1: self.admin1.deep_view(),
            country: self.country.deep_view(),
        }
    }
}

impl DeepView for GeocodedPlace {
    type V = GeocodedPlaceView;

    open spec fn deep_view(&self) -> GeocodedPlaceView {
        self@
    }
}

impl Clone for GeocodedPlace {
    fn clone(&self) -> (r: Self)
        ensures
            r == *self,
    {
        GeocodedPlace {
            name: self.name.clone(),
            latitude: self.latitude.clone(),
            longitude: self.longitude.clone(),
            admin1: match &self.admin1 {
                Some(a) => Some(a.clone()),
                None => None,
            },
            country: match &self.country {
                Some(c) => Some(c.clone()),
                None => None,
            },
        }
    }
}

/// The separator between the parts of a place's label.
pub open spec fn label_separator() -> Seq<char> {
    seq![',', ' ']
}

/// What an optional part adds to a label: nothing when it is absent or empty, else
/// the separator and the part.
pub open spec fn label_part(part: Option<Seq<char>>) -> Seq<char> {
    match part {
        Some(p) => if p.len() > 0 { label_separator() + p } else { Seq::empty() },
        None => Seq::empty(),
    }
}

/// The label of a place: its name, then its region and its country where they are
/// given and not empty, joined by `", "`.
pub open spec fn place_label(p: GeocodedPlaceView) -> Seq<char> {
    p.name + label_part(p.admin1) + label_part(p.country)
}

impl GeocodedPlace {
    /// The text that names this place in the search results and the location field.
    pub fn label(&self) -> (r: String)
        ensures
            r@ == place_label(self@),
    {
        let mut label = self.name.clone();
        proof {
            reveal_strlit(", ");
        }
        if let Some(admin1) = &self.admin1 {
            if !admin1.as_str().is_empty() {
                label.append(", ");
                label.append(admin1.as_str());
            }
        }
        if let Some(country) = &self.country {
            if !country.as_str().is_empty() {
                label.append(", ");
                label.append(country.as_str());
            }
        }
        assert(label@ == place_label(self@));
        label
    }
}


/// Address of the forecast service up to the latitude value; the longitude follows
/// after `&lon=`.
pub const FORECAST_URL_PREFIX: &'static str =
    "https://api.met.no/weatherapi/locationforecast/2.0/compact?lat=";

/// Address of the geocoding service's search.
pub const GEOCODING_URL: &'static str = "https://geocoding-api.open-meteo.com/v1/search";

/// The forecast address for the given coordinate texts.
pub open spec fn forecast_url_for(latitude: Seq<char>, longitude: Seq<char>) -> Seq<char> {
    FORECAST_URL_PREFIX@ + latitude + "&lon="@ + longitude
}

/// The address of the compact forecast for the given coordinates, as texts.
pub fn forecast_url(latitude: &str, longitude: &str) -> (r: String)
    ensures
        r@ == forecast_url_for(latitude@, longitude@),
{
    let mut url = String::from_str(FORECAST_URL_PREFIX);
    url.append(latitude);
    url.append("&lon=");
    url.append(longitude);
    url
}

/// One entry of a forecast's time series, reduced to what the applet shows: the
/// instant air temperature in whole degrees Celsius.
pub struct Timeseries {
    pub air_temperature: i32,
}

/// A location forecast, reduced to its time series.
pub struct WeatherApiResponse {
    pub timeseries: Vec<Timeseries>,
}

/// The temperature that a forecast makes current: that of its first entry, or 0 for
/// an empty series.
pub open spec fn current_temperature_of(timeseries: Seq<Timeseries>) -> i32 {
    if timeseries.len() > 0 {
        timeseries[0].air_temperature
    } else {
        0
    }
}

impl WeatherApiResponse {
    /// The current temperature of the forecast.
    pub fn current_temperature(&self) -> (r: i32)
        ensures
            r == current_temperature_of(self.timeseries@),
    {
        if self.timeseries.len() > 0 {
            self.timeseries[0].air_temperature
        } else {
            0
        }
    }
}

/// One match of a geocoding search.
pub struct GeocodingResult {
    pub name: String,
    pub latitude: Coordinate,
    pub longitude: Coordinate,
    pub admin1: Option<String>,
    pub country: Option<String>,
}

impl View for GeocodingResult {
    type V = GeocodedPlaceView;

    open spec fn view(&self) -> GeocodedPlaceView {
        GeocodedPlaceView {
            name: self.name@,
            latitude: self.latitude@,
            longitude: self.longitude@,
            admin1: self.admin1.deep_view(),
            country: self.country.deep_view(),
        }
    }
}

impl DeepView for GeocodingResult {
    type V = GeocodedPlaceView;

    open spec fn deep_view(&self) -> GeocodedPlaceView {
        self@
    }
}

/// The answer of the geocoding service: its matches, if it gave any.
pub struct GeocodingResponse {
    pub results: Option<Vec<GeocodingResult>>,
}

/// The places that a geocoding answer names, in its order.
pub open spec fn places_of(response: &GeocodingResponse) -> Seq<GeocodedPlaceView> {
    match &response.results {
        Some(results) => results.deep_view(),
        None => Seq::empty(),
    }
}

fn copy_text(o: &Option<String>) -> (r: Option<String>)
    ensures
        r.deep_view() == o.deep_view(),
{
    match o {
        Some(s) => Some(s.clone()),
        None => None,
    }
}

impl GeocodingResponse {
    /// The places found, each with the name, coordinates, region and country of its
    /// match; none when the answer has no result list.
    pub fn places(&self) -> (r: Vec<GeocodedPlace>)
        ensures
            r.deep_view() == places_of(self),
    {
        let mut places: Vec<GeocodedPlace> = Vec::new();
        match &self.results {
            None => {
                assert(places.deep_view() =~= places_of(self));
                places
            },
            Some(results) => {
                let n = results.len();
                for i in 0..n
                    invariant
                        n == results.len(),
                        places.len() == i,
                        forall|j: int| 0 <= j < i ==> #[trigger] places@[j]@ == results@[j]@,
                {
                    let m = &results[i];
                    places.push(
                        GeocodedPlace {
                            name: m.name.clone(),
                            latitude: m.latitude.clone(),
                            longitude: m.longitude.clone(),
                            admin1: copy_text(&m.admin1),
                            country: copy_text(&m.country),
                        },
                    );
                }
                assert(places.deep_view() =~= places_of(self));
                places
            },
        }
    }
}

/// The query parameters of a search for the place named `name`: the name, at most
/// five results, English names, JSON.
pub open spec fn geocode_params_for(name: Seq<char>) -> Seq<(Seq<char>, Seq<char>)> {
    seq![
        ("name"@, name),
        ("count"@, "5"@),
        ("language"@, "en"@),
        ("format"@, "json"@),
    ]
}

/// The query parameters of the place search for what the user typed: none when the
/// text is blank, for then no search is made; else those for the text without its
/// surrounding white space.
pub fn geocode_query(query: &str) -> (r: Option<Vec<(String, String)>>)
    ensures
        r is None <==> trimmed(query@).len() == 0,
        r matches Some(p) ==> p.deep_view() == geocode_params_for(trimmed(query@)),
{
    let name = trim(query);
    if name.is_empty() {
        return None;
    }
    let mut params: Vec<(String, String)> = Vec::new();
    params.push((String::from_str("name"), String::from_str(name)));
    params.push((String::from_str("count"), String::from_str("5")));
    params.push((String::from_str("language"), String::from_str("en")));
    params.push((String::from_str("format"), String::from_str("json")));
    assert(params.deep_view() =~= geocode_params_for(trimmed(query@)));
    Some(params)
}

} // verus!
