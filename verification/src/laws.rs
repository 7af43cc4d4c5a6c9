//! What holds of the applet across messages: properties of every state it reaches
//! and of every reaction to a message.
use vstd::prelude::*;
use crate::applet::{
    at_least_one_minute, initial_state, next, set_latitude_in, set_location_name_in,
    set_longitude_in, set_refresh_in, ConfigWriteView, MessageView, TaskView, WeatherView,
};
use crate::config::{same_value_bits, CoordinateView, WeatherConfigView};
use crate::text::{
    digits_value, int_text, is_decimal_digit, is_white_space, nat_text, parse_u64, trim_end,
    trim_start, trimmed, unsigned_digits,
};
use crate::weather::{
    current_temperature_of, forecast_url_for, geocode_params_for, place_label, places_of, GeocodedPlaceView,
    GeocodingResponse, Timeseries,
};

verus! {

/// A state whose refresh interval is at least one minute.
pub open spec fn refresh_interval_positive(s: WeatherView) -> bool {
    s.refresh_interval_minutes >= 1
}

/// The applet starts with a refresh interval of at least one minute, whatever the
/// settings say.
pub proof fn lemma_initial_refresh_interval_positive(config: WeatherConfigView, has_config_handler: bool)
    ensures
        refresh_interval_positive(initial_state(config, has_config_handler)),
{
}

/// No message brings the refresh interval below one minute.
pub proof fn lemma_refresh_interval_stays_positive(s: WeatherView, m: MessageView)
    requires
        refresh_interval_positive(s),
    ensures
        refresh_interval_positive(next(s, m).0),
{
}

/// Forecasts are fetched for the stored coordinates: whenever a message leads to a
/// forecast request, its address is the one for the latitude and longitude in the
/// settings after the message.
pub proof fn lemma_forecast_uses_stored_coordinates(s: WeatherView, m: MessageView)
    ensures
        next(s, m).1.task matches TaskView::FetchForecast(url) ==> url == forecast_url_for(
            next(s, m).0.config.latitude.text,
            next(s, m).0.config.longitude.text,
        ),
{
}

/// The location name only affects the location field: two states whose stored
/// coordinates agree ask for the same forecast on the timer, whatever their location
/// names and search fields hold.
pub proof fn lemma_location_name_does_not_affect_forecast(s1: WeatherView, s2: WeatherView)
    requires
        s1.config.latitude == s2.config.latitude,
        s1.config.longitude == s2.config.longitude,
    ensures
        next(s1, MessageView::Tick).1.task == next(s2, MessageView::Tick).1.task,
{
}

/// Without a settings store, no message changes the settings or asks for a write.
pub proof fn lemma_no_store_no_settings_change(s: WeatherView, m: MessageView)
    requires
        !s.has_config_handler,
    ensures
        next(s, m).0.config == s.config,
        next(s, m).1.config_writes.len() == 0,
        !next(s, m).0.has_config_handler,
{
}

/// Whether `w` writes the value that `c` holds for the setting it names.
pub open spec fn write_agrees(w: ConfigWriteView, c: WeatherConfigView) -> bool {
    match w {
        ConfigWriteView::Latitude(v) => c.latitude == v,
        ConfigWriteView::Longitude(v) => c.longitude == v,
        ConfigWriteView::LocationName(v) => c.location_name == v,
        ConfigWriteView::RefreshIntervalMinutes(v) => c.refresh_interval_minutes == v,
    }
}

/// Whether the writes hold each setting that differs between `before` and `after`.
pub open spec fn writes_cover_changes(
    writes: Seq<ConfigWriteView>,
    before: WeatherConfigView,
    after: WeatherConfigView,
) -> bool {
    &&& before.latitude != after.latitude ==> writes.contains(
        ConfigWriteView::Latitude(after.latitude),
    )
    &&& before.longitude != after.longitude ==> writes.contains(
        ConfigWriteView::Longitude(after.longitude),
    )
    &&& before.location_name != after.location_name ==> writes.contains(
        ConfigWriteView::LocationName(after.location_name),
    )
    &&& before.refresh_interval_minutes != after.refresh_interval_minutes ==> writes.contains(
        ConfigWriteView::RefreshIntervalMinutes(after.refresh_interval_minutes),
    )
}

proof fn lemma_contains_concat(a: Seq<ConfigWriteView>, b: Seq<ConfigWriteView>, x: ConfigWriteView)
    ensures
        a.contains(x) ==> (a + b).contains(x),
        b.contains(x) ==> (a + b).contains(x),
{
    if a.contains(x) {
        let i = choose|i: int| 0 <= i < a.len() && a[i] == x;
        assert((a + b)[i] == x);
    }
    if b.contains(x) {
        let i = choose|i: int| 0 <= i < b.len() && b[i] == x;
        assert((a + b)[a.len() + i] == x);
    }
}

/// Whether the settings `b` keep each field that changed from `a`, so that a later
/// step does not undo an earlier one.
spec fn keeps_changes(a: WeatherConfigView, b: WeatherConfigView, c: WeatherConfigView) -> bool {
    &&& a.latitude != b.latitude ==> b.latitude == c.latitude
    &&& a.longitude != b.longitude ==> b.longitude == c.longitude
    &&& a.location_name != b.location_name ==> b.location_name == c.location_name
    &&& a.refresh_interval_minutes != b.refresh_interval_minutes ==> b.refresh_interval_minutes
        == c.refresh_interval_minutes
}

proof fn lemma_cover_concat(
    w1: Seq<ConfigWriteView>,
    w2: Seq<ConfigWriteView>,
    a: WeatherConfigView,
    b: WeatherConfigView,
    c: WeatherConfigView,
)
    requires
        writes_cover_changes(w1, a, b),
        writes_cover_changes(w2, b, c),
        keeps_changes(a, b, c),
    ensures
        writes_cover_changes(w1 + w2, a, c),
{
    lemma_contains_concat(w1, w2, ConfigWriteView::Latitude(c.latitude));
    lemma_contains_concat(w1, w2, ConfigWriteView::Longitude(c.longitude));
    lemma_contains_concat(w1, w2, ConfigWriteView::LocationName(c.location_name));
    lemma_contains_concat(
        w1,
        w2,
        ConfigWriteView::RefreshIntervalMinutes(c.refresh_interval_minutes),
    );
}

proof fn lemma_agree_concat(w1: Seq<ConfigWriteView>, w2: Seq<ConfigWriteView>, c: WeatherConfigView)
    requires
        forall|i: int| 0 <= i < w1.len() ==> write_agrees(#[trigger] w1[i], c),
        forall|i: int| 0 <= i < w2.len() ==> write_agrees(#[trigger] w2[i], c),
    ensures
        forall|i: int| 0 <= i < (w1 + w2).len() ==> write_agrees(#[trigger] (w1 + w2)[i], c),
{
    assert forall|i: int| 0 <= i < (w1 + w2).len() implies write_agrees(
        #[trigger] (w1 + w2)[i],
        c,
    ) by {
        if i < w1.len() {
            assert((w1 + w2)[i] == w1[i]);
        } else {
            assert((w1 + w2)[i] == w2[i - w1.len()]);
        }
    }
}

proof fn lemma_single_steps(c: WeatherConfigView, lat: CoordinateView, name: Seq<char>, minutes: u64)
    ensures
        writes_cover_changes(set_latitude_in(c, lat).1, c, set_latitude_in(c, lat).0),
        writes_cover_changes(set_longitude_in(c, lat).1, c, set_longitude_in(c, lat).0),
        writes_cover_changes(set_location_name_in(c, name).1, c, set_location_name_in(c, name).0),
        writes_cover_changes(set_refresh_in(c, minutes).1, c, set_refresh_in(c, minutes).0),
{
    assert(seq![ConfigWriteView::Latitude(lat)][0] == ConfigWriteView::Latitude(lat));
    assert(seq![ConfigWriteView::Longitude(lat)][0] == ConfigWriteView::Longitude(lat));
    assert(seq![ConfigWriteView::LocationName(name)][0] == ConfigWriteView::LocationName(name));
    assert(seq![ConfigWriteView::RefreshIntervalMinutes(minutes)][0]
        == ConfigWriteView::RefreshIntervalMinutes(minutes));
}

/// The settings store is kept in step with the settings: every write a message asks
/// for holds the value the settings have afterwards, and every setting that a message
/// changes is written.
pub proof fn lemma_writes_match_settings(s: WeatherView, m: MessageView)
    ensures
        forall|i: int|
            0 <= i < next(s, m).1.config_writes.len() ==> write_agrees(
                #[trigger] next(s, m).1.config_writes[i],
                next(s, m).0.config,
            ),
        writes_cover_changes(next(s, m).1.config_writes, s.config, next(s, m).0.config),
{
    match m {
        MessageView::SelectGeocodedPlace(p) => {
            if s.has_config_handler {
                let (c1, w1) = set_latitude_in(s.config, p.latitude);
                let (c2, w2) = set_longitude_in(c1, p.longitude);
                let (c3, w3) = set_location_name_in(c2, place_label(p));
                lemma_single_steps(s.config, p.latitude, place_label(p), 0);
                lemma_single_steps(c1, p.longitude, place_label(p), 0);
                lemma_single_steps(c2, p.longitude, place_label(p), 0);
                lemma_cover_concat(w1, w2, s.config, c1, c2);
                lemma_cover_concat(w1 + w2, w3, s.config, c2, c3);
                lemma_agree_concat(w1, w2, c3);
                lemma_agree_concat(w1 + w2, w3, c3);
            }
        },
        MessageView::UpdateLatitude(_, v) => {
            if s.has_config_handler {
                let (c1, w1) = set_latitude_in(s.config, v);
                let (c2, w2) = set_location_name_in(c1, Seq::empty());
                lemma_single_steps(s.config, v, Seq::empty(), 0);
                lemma_single_steps(c1, v, Seq::empty(), 0);
                lemma_cover_concat(w1, w2, s.config, c1, c2);
                lemma_agree_concat(w1, w2, c2);
            }
        },
        MessageView::UpdateLongitude(_, v) => {
            if s.has_config_handler {
                let (c1, w1) = set_longitude_in(s.config, v);
                let (c2, w2) = set_location_name_in(c1, Seq::empty());
                lemma_single_steps(s.config, v, Seq::empty(), 0);
                lemma_single_steps(c1, v, Seq::empty(), 0);
                lemma_cover_concat(w1, w2, s.config, c1, c2);
                lemma_agree_concat(w1, w2, c2);
            }
        },
        MessageView::UpdateRefreshIntervalMinutes(text) => {
            if let Some(n) = parse_u64(text) {
                lemma_single_steps(s.config, s.config.latitude, Seq::empty(), at_least_one_minute(n));
            }
        },
        _ => {},
    }
}

/// The panel button opens the popup when it is closed and closes it when it is open.
pub proof fn lemma_toggle_window(s: WeatherView, fresh: u64)
    ensures
        next(s, MessageView::ToggleWindow(fresh)).0.popup == (match s.popup {
            Some(_) => None,
            None => Some(fresh),
        }),
        next(s, MessageView::ToggleWindow(fresh)).1.task == (match s.popup {
            Some(id) => TaskView::DestroyPopup(id),
            None => TaskView::OpenPopup(fresh),
        }),
{
}

/// Closing the open popup leaves none open; the closing of any other popup changes
/// nothing.
pub proof fn lemma_popup_closed(s: WeatherView, id: u64)
    ensures
        s.popup == Some(id) ==> next(s, MessageView::PopupClosed(id)).0 == (WeatherView {
            popup: None,
            ..s
        }),
        s.popup != Some(id) ==> next(s, MessageView::PopupClosed(id)).0 == s,
{
}


/// Whether the settings no longer hold a coordinate other than `v`: they hold `v`
/// itself or a coordinate of equal value.
pub open spec fn holds_coordinate(stored: CoordinateView, v: CoordinateView) -> bool {
    ||| stored == v
    ||| stored.bits == v.bits
    ||| ((stored.bits & 0x7fff_ffff_ffff_ffffu64) == 0 && (v.bits & 0x7fff_ffff_ffff_ffffu64) == 0)
}

/// Choosing a search result shows its label in the location field and its
/// coordinates in the coordinate fields, clears the results and the search error,
/// stores its coordinates and label when a settings store is at hand, and fetches the
/// forecast for the stored coordinates.
pub proof fn lemma_select_place(s: WeatherView, p: GeocodedPlaceView)
    ensures
        ({
            let (s2, e) = next(s, MessageView::SelectGeocodedPlace(p));
            &&& s2.location_query == place_label(p)
            &&& s2.latitude == p.latitude.text
            &&& s2.longitude == p.longitude.text
            &&& s2.geocoded_places.len() == 0
            &&& !s2.geocode_error
            &&& s.has_config_handler ==> {
                &&& holds_coordinate(s2.config.latitude, p.latitude)
                &&& holds_coordinate(s2.config.longitude, p.longitude)
                &&& s2.config.location_name == place_label(p)
            }
            &&& !s.has_config_handler ==> s2.config == s.config
            &&& e.task == TaskView::FetchForecast(
                forecast_url_for(s2.config.latitude.text, s2.config.longitude.text),
            )
        }),
{
}

/// A search clears the previous results and error and looks for the text of the
/// location field; the results it brings back are then exactly those shown, and a
/// failed search shows the error with no results.
pub proof fn lemma_search_then_results(
    s: WeatherView,
    outcome: Result<Seq<GeocodedPlaceView>, Seq<char>>,
)
    ensures
        ({
            let (s1, e1) = next(s, MessageView::SearchLocation);
            let (s2, _) = next(s1, MessageView::GeocodeCompleted(outcome));
            &&& e1.task == TaskView::SearchPlaces(s.location_query)
            &&& s1.geocoded_places.len() == 0
            &&& !s1.geocode_error
            &&& match outcome {
                Ok(places) => s2.geocoded_places == places && !s2.geocode_error,
                Err(_) => s2.geocoded_places.len() == 0 && s2.geocode_error,
            }
        }),
{
}

/// Typing a coordinate shows the typed text, empties the location field, the
/// results and the search error, stores the typed value and an empty location name
/// when a settings store is at hand, and fetches the forecast for the stored
/// coordinates.
pub proof fn lemma_typed_latitude(s: WeatherView, text: Seq<char>, v: CoordinateView)
    ensures
        ({
            let (s2, e) = next(s, MessageView::UpdateLatitude(text, v));
            &&& s2.latitude == text
            &&& s2.location_query.len() == 0
            &&& s2.geocoded_places.len() == 0
            &&& !s2.geocode_error
            &&& s.has_config_handler ==> holds_coordinate(s2.config.latitude, v)
                && s2.config.location_name.len() == 0
            &&& s2.config.longitude == s.config.longitude
            &&& e.task == TaskView::FetchForecast(
                forecast_url_for(s2.config.latitude.text, s2.config.longitude.text),
            )
        }),
{
}

/// The same for the longitude.
pub proof fn lemma_typed_longitude(s: WeatherView, text: Seq<char>, v: CoordinateView)
    ensures
        ({
            let (s2, e) = next(s, MessageView::UpdateLongitude(text, v));
            &&& s2.longitude == text
            &&& s2.location_query.len() == 0
            &&& s2.geocoded_places.len() == 0
            &&& !s2.geocode_error
            &&& s.has_config_handler ==> holds_coordinate(s2.config.longitude, v)
                && s2.config.location_name.len() == 0
            &&& s2.config.latitude == s.config.latitude
            &&& e.task == TaskView::FetchForecast(
                forecast_url_for(s2.config.latitude.text, s2.config.longitude.text),
            )
        }),
{
}

/// The refresh interval field always shows what was typed; a text that reads as a
/// whole number sets the interval to that number of minutes, at least one, and
/// stores it when a settings store is at hand; any other text leaves the interval
/// as it was.
pub proof fn lemma_typed_refresh_interval(s: WeatherView, text: Seq<char>)
    ensures
        ({
            let (s2, e) = next(s, MessageView::UpdateRefreshIntervalMinutes(text));
            &&& s2.refresh_interval_minutes_input == text
            &&& e.task == TaskView::Nothing
            &&& match parse_u64(text) {
                Some(n) => {
                    &&& s2.refresh_interval_minutes == at_least_one_minute(n)
                    &&& s.has_config_handler ==> s2.config.refresh_interval_minutes
                        == at_least_one_minute(n)
                },
                None => s2.refresh_interval_minutes == s.refresh_interval_minutes && s2.config
                    == s.config,
            }
        }),
{
}

/// No message makes a settings store appear or disappear.
pub proof fn lemma_store_presence_unchanged(s: WeatherView, m: MessageView)
    ensures
        next(s, m).0.has_config_handler == s.has_config_handler,
{
}


/// Coordinates compare as `f64` values: two bit patterns are equal exactly when they
/// are the same pattern of a number that is not NaN, or both are zeros of either sign.
pub proof fn lemma_coordinate_equality_is_float_equality(a: u64, b: u64)
    ensures
        same_value_bits(a, b) <==> (a == b && !((a & 0x7ff0_0000_0000_0000u64)
            == 0x7ff0_0000_0000_0000u64 && (a & 0x000f_ffff_ffff_ffffu64) != 0)) || ((a
            & 0x7fff_ffff_ffff_ffffu64) == 0 && (b & 0x7fff_ffff_ffff_ffffu64) == 0),
{
    assert(((a & 0x7fff_ffff_ffff_ffffu64) == 0) ==> (a & 0x7ff0_0000_0000_0000u64) == 0)
        by (bit_vector);
    assert(((b & 0x7fff_ffff_ffff_ffffu64) == 0) ==> (b & 0x7ff0_0000_0000_0000u64) == 0)
        by (bit_vector);
}

/// Setting a coordinate that is a number of another value than the stored one stores
/// it and writes it; setting the very same number stores and writes nothing.
pub proof fn lemma_setting_a_coordinate(c: WeatherConfigView, v: CoordinateView)
    ensures
        ({
            let differs = v.bits != c.latitude.bits && !((v.bits & 0x7fff_ffff_ffff_ffffu64) == 0
                && (c.latitude.bits & 0x7fff_ffff_ffff_ffffu64) == 0);
            let nan = (v.bits & 0x7ff0_0000_0000_0000u64) == 0x7ff0_0000_0000_0000u64 && (v.bits
                & 0x000f_ffff_ffff_ffffu64) != 0;
            &&& (differs || nan) ==> set_latitude_in(c, v).0 == (WeatherConfigView {
                latitude: v,
                ..c
            }) && set_latitude_in(c, v).1 == seq![ConfigWriteView::Latitude(v)]
            &&& (!differs && !nan) ==> set_latitude_in(c, v).0 == c && set_latitude_in(
                c,
                v,
            ).1.len() == 0
        }),
        ({
            let differs = v.bits != c.longitude.bits && !((v.bits & 0x7fff_ffff_ffff_ffffu64) == 0
                && (c.longitude.bits & 0x7fff_ffff_ffff_ffffu64) == 0);
            let nan = (v.bits & 0x7ff0_0000_0000_0000u64) == 0x7ff0_0000_0000_0000u64 && (v.bits
                & 0x000f_ffff_ffff_ffffu64) != 0;
            &&& (differs || nan) ==> set_longitude_in(c, v).0 == (WeatherConfigView {
                longitude: v,
                ..c
            }) && set_longitude_in(c, v).1 == seq![ConfigWriteView::Longitude(v)]
            &&& (!differs && !nan) ==> set_longitude_in(c, v).0 == c && set_longitude_in(
                c,
                v,
            ).1.len() == 0
        }),
{
    lemma_coordinate_equality_is_float_equality(c.latitude.bits, v.bits);
    lemma_coordinate_equality_is_float_equality(c.longitude.bits, v.bits);
    let x = v.bits;
    let y = c.latitude.bits;
    let z = c.longitude.bits;
    assert(((x & 0x7fff_ffff_ffff_ffffu64) == 0) ==> (x & 0x7ff0_0000_0000_0000u64) == 0)
        by (bit_vector);
    assert(((y & 0x7fff_ffff_ffff_ffffu64) == 0) ==> (y & 0x7ff0_0000_0000_0000u64) == 0)
        by (bit_vector);
    assert(((z & 0x7fff_ffff_ffff_ffffu64) == 0) ==> (z & 0x7ff0_0000_0000_0000u64) == 0)
        by (bit_vector);
}

/// A geocoding answer gives one place per result, in the answer's order, each with
/// the name, coordinates, region and country of its result; no result list gives no
/// places.
pub proof fn lemma_places_one_per_result(response: GeocodingResponse)
    ensures
        match response.results {
            Some(results) => {
                &&& places_of(&response).len() == results@.len()
                &&& forall|i: int|
                    0 <= i < results@.len() ==> {
                        &&& (#[trigger] places_of(&response)[i]).name == results@[i].name@
                        &&& places_of(&response)[i].latitude == results@[i].latitude@
                        &&& places_of(&response)[i].longitude == results@[i].longitude@
                        &&& places_of(&response)[i].admin1 == results@[i].admin1.deep_view()
                        &&& places_of(&response)[i].country == results@[i].country.deep_view()
                    }
            },
            None => places_of(&response).len() == 0,
        },
{
}

/// The current temperature of a forecast is that of its first entry, whatever the
/// later entries hold, and 0 for an empty series.
pub proof fn lemma_current_temperature_is_first_entry(timeseries: Seq<Timeseries>)
    ensures
        timeseries.len() > 0 ==> current_temperature_of(timeseries) == timeseries[0].air_temperature,
        timeseries.len() == 0 ==> current_temperature_of(timeseries) == 0,
        forall|later: Seq<Timeseries>|
            timeseries.len() > 0 ==> #[trigger] current_temperature_of(timeseries + later)
                == current_temperature_of(timeseries),
{
    assert forall|later: Seq<Timeseries>| timeseries.len() > 0 implies #[trigger] current_temperature_of(
        timeseries + later,
    ) == current_temperature_of(timeseries) by {
        assert((timeseries + later)[0] == timeseries[0]);
    }
}

/// Typing in the search field makes the field hold exactly the typed text, whatever
/// it held before, and changes nothing else.
pub proof fn lemma_update_location_query(s: WeatherView, q: Seq<char>)
    ensures
        next(s, MessageView::UpdateLocationQuery(q)).0 == (WeatherView { location_query: q, ..s }),
        next(s, MessageView::UpdateLocationQuery(q)).1.config_writes.len() == 0,
        next(s, MessageView::UpdateLocationQuery(q)).1.task == TaskView::Nothing,
{
}

/// A finished forecast shows exactly its temperature and changes nothing else.
pub proof fn lemma_update_temperature(s: WeatherView, t: i32)
    ensures
        next(s, MessageView::UpdateTemperature(t)).0 == (WeatherView { temperature: t, ..s }),
        next(s, MessageView::UpdateTemperature(t)).1.config_writes.len() == 0,
        next(s, MessageView::UpdateTemperature(t)).1.task == TaskView::Nothing,
{
}

/// Every timer tick, whatever the coordinates, fetches the forecast at the address
/// made of the stored latitude and longitude, and changes nothing.
pub proof fn lemma_tick_fetches_stored_coordinates(s: WeatherView)
    ensures
        next(s, MessageView::Tick).0 == s,
        next(s, MessageView::Tick).1.config_writes.len() == 0,
        next(s, MessageView::Tick).1.task == TaskView::FetchForecast(
            "https://api.met.no/weatherapi/locationforecast/2.0/compact?lat="@
                + s.config.latitude.text + "&lon="@ + s.config.longitude.text,
        ),
{
}

/// The forecast address is the service's address with the latitude text after
/// `lat=` and the longitude text after `&lon=`.
pub proof fn lemma_forecast_address(latitude: Seq<char>, longitude: Seq<char>)
    ensures
        forecast_url_for(latitude, longitude)
            == "https://api.met.no/weatherapi/locationforecast/2.0/compact?lat="@ + latitude
            + "&lon="@ + longitude,
{
}

/// The refresh interval is the number of minutes asked for, raised to one when zero.
pub proof fn lemma_at_least_one_minute(minutes: u64)
    ensures
        minutes >= 1 ==> at_least_one_minute(minutes) == minutes,
        minutes == 0 ==> at_least_one_minute(minutes) == 1,
{
}

/// The applet starts with no popup, no temperature yet, no results or error, the
/// stored location name in the search field, the stored coordinates' texts in the
/// coordinate fields and the stored refresh interval, raised to one when zero.
pub proof fn lemma_initial_state(config: WeatherConfigView, has_config_handler: bool)
    ensures
        ({
            let s = initial_state(config, has_config_handler);
            &&& s.popup is None
            &&& s.config == config
            &&& s.has_config_handler == has_config_handler
            &&& s.temperature == 0
            &&& s.location_query == config.location_name
            &&& s.geocoded_places.len() == 0
            &&& !s.geocode_error
            &&& s.latitude == config.latitude.text
            &&& s.longitude == config.longitude.text
            &&& s.refresh_interval_minutes == (if config.refresh_interval_minutes == 0 {
                1
            } else {
                config.refresh_interval_minutes
            })
            &&& s.refresh_interval_minutes_input == int_text(s.refresh_interval_minutes as int)
        }),
{
}

/// A place's label is its name, followed by `", "` and the region when the region is
/// given and not empty, then by `", "` and the country when that is given and not
/// empty.
pub proof fn lemma_label(p: GeocodedPlaceView)
    ensures
        place_label(p).subrange(0, p.name.len() as int) == p.name,
        ({
            let region = match p.admin1 {
                Some(a) => if a.len() > 0 { seq![',', ' '] + a } else { Seq::empty() },
                None => Seq::empty(),
            };
            let country = match p.country {
                Some(c) => if c.len() > 0 { seq![',', ' '] + c } else { Seq::empty() },
                None => Seq::empty(),
            };
            place_label(p) == p.name + region + country
        }),
{
    assert(place_label(p).subrange(0, p.name.len() as int) =~= p.name);
}

proof fn lemma_nat_text_digits(n: nat)
    ensures
        nat_text(n).len() > 0,
        forall|i: int| 0 <= i < nat_text(n).len() ==> #[trigger] is_decimal_digit(nat_text(n)[i]),
        digits_value(nat_text(n)) == n,
    decreases n,
{
    let d = (('0' as nat) + n % 10) as char;
    assert((d as nat) == ('0' as nat) + n % 10);
    assert(n == (n / 10) * 10 + n % 10) by (nonlinear_arith);
    if n < 10 {
        assert(nat_text(n) == seq![d]);
        assert(seq![d].drop_last() =~= Seq::<char>::empty());
        assert(digits_value(seq![d]) == digits_value(Seq::<char>::empty()) * 10 + ((d as nat)
            - ('0' as nat)) as nat);
    } else {
        lemma_nat_text_digits(n / 10);
        let t = nat_text(n / 10);
        assert(nat_text(n) == t.push(d));
        assert(t.push(d).drop_last() =~= t);
        assert(forall|i: int| 0 <= i < t.len() ==> t.push(d)[i] == t[i]);
        assert(digits_value(t.push(d)) == digits_value(t) * 10 + ((d as nat) - ('0' as nat)) as nat);
    }
}

/// Reading back the decimal text of a 64-bit number gives the number: the text that
/// the refresh interval field shows parses to the interval.
pub proof fn lemma_number_text_round_trip(n: u64)
    ensures
        parse_u64(int_text(n as int)) == Some(n),
{
    lemma_nat_text_digits(n as nat);
    let t = int_text(n as int);
    assert(t == nat_text(n as nat));
    assert(t[0] != '+') by {
        assert(is_decimal_digit(t[0]));
    }
    assert(unsigned_digits(t) == t);
}

proof fn lemma_trim_start(s: Seq<char>)
    ensures
        trim_start(s).len() <= s.len(),
        trim_start(s) == s.subrange(s.len() - trim_start(s).len(), s.len() as int),
        forall|k: int| 0 <= k < s.len() - trim_start(s).len() ==> #[trigger] is_white_space(s[k]),
        trim_start(s).len() > 0 ==> !is_white_space(trim_start(s)[0]),
    decreases s.len(),
{
    if s.len() > 0 && is_white_space(s[0]) {
        lemma_trim_start(s.drop_first());
        let r = trim_start(s.drop_first());
        assert(r == s.drop_first().subrange(s.drop_first().len() - r.len(), s.drop_first().len() as int));
        assert(r =~= s.subrange(s.len() - r.len(), s.len() as int));
        assert forall|k: int| 0 <= k < s.len() - r.len() implies #[trigger] is_white_space(s[k]) by {
            if k > 0 {
                assert(s[k] == s.drop_first()[k - 1]);
            }
        }
    } else {
        assert(s =~= s.subrange(0, s.len() as int));
    }
}

proof fn lemma_trim_end(s: Seq<char>)
    ensures
        trim_end(s).len() <= s.len(),
        trim_end(s) == s.subrange(0, trim_end(s).len() as int),
        forall|k: int| trim_end(s).len() <= k < s.len() ==> #[trigger] is_white_space(s[k]),
        trim_end(s).len() > 0 ==> !is_white_space(trim_end(s).last()),
    decreases s.len(),
{
    if s.len() > 0 && is_white_space(s.last()) {
        lemma_trim_end(s.drop_last());
        let r = trim_end(s.drop_last());
        assert(r =~= s.subrange(0, r.len() as int));
        assert forall|k: int| r.len() <= k < s.len() implies #[trigger] is_white_space(s[k]) by {
            if k < s.len() - 1 {
                assert(s[k] == s.drop_last()[k]);
            }
        }
    } else {
        assert(s =~= s.subrange(0, s.len() as int));
    }
}

/// Trimming takes a run of the text out of its middle: everything before and after
/// the run is white space, and the run neither starts nor ends with white space.
pub proof fn lemma_trimmed(s: Seq<char>)
    ensures
        ({
            let t = trimmed(s);
            exists|i: int, j: int|
                {
                    &&& 0 <= i <= j <= s.len()
                    &&& t == s.subrange(i, j)
                    &&& forall|k: int| 0 <= k < i ==> #[trigger] is_white_space(s[k])
                    &&& forall|k: int| j <= k < s.len() ==> #[trigger] is_white_space(s[k])
                }
        }),
        trimmed(s).len() > 0 ==> !is_white_space(trimmed(s)[0]) && !is_white_space(
            trimmed(s).last(),
        ),
{
    lemma_trim_start(s);
    let a = trim_start(s);
    lemma_trim_end(a);
    let t = trim_end(a);
    let i = s.len() - a.len();
    let j = i + t.len();
    assert(t =~= s.subrange(i, j));
    assert forall|k: int| j <= k < s.len() implies #[trigger] is_white_space(s[k]) by {
        assert(s[k] == a[k - i]);
    }
    if t.len() > 0 {
        assert(t[0] == a[0]);
    }
    assert(0 <= i <= j <= s.len());
}


/// Setting the location name or the refresh interval to another value stores and
/// writes it; setting the value already held stores and writes nothing.
pub proof fn lemma_setting_name_and_interval(c: WeatherConfigView, name: Seq<char>, minutes: u64)
    ensures
        c.location_name != name ==> set_location_name_in(c, name).0 == (WeatherConfigView {
            location_name: name,
            ..c
        }) && set_location_name_in(c, name).1 == seq![ConfigWriteView::LocationName(name)],
        c.location_name == name ==> set_location_name_in(c, name).0 == c && set_location_name_in(
            c,
            name,
        ).1.len() == 0,
        c.refresh_interval_minutes != minutes ==> set_refresh_in(c, minutes).0 == (
        WeatherConfigView { refresh_interval_minutes: minutes, ..c }) && set_refresh_in(
            c,
            minutes,
        ).1 == seq![ConfigWriteView::RefreshIntervalMinutes(minutes)],
        c.refresh_interval_minutes == minutes ==> set_refresh_in(c, minutes).0 == c
            && set_refresh_in(c, minutes).1.len() == 0,
{
}

/// A place search asks for the name given, at most five results, English names and
/// JSON, in that order.
pub proof fn lemma_search_parameters(name: Seq<char>)
    ensures
        geocode_params_for(name).len() == 4,
        geocode_params_for(name)[0] == ("name"@, name),
        geocode_params_for(name)[1] == ("count"@, "5"@),
        geocode_params_for(name)[2] == ("language"@, "en"@),
        geocode_params_for(name)[3] == ("format"@, "json"@),
{
}

/// A negative number's text is a minus sign before the text of its magnitude.
pub proof fn lemma_negative_number_text(i: int)
    ensures
        i < 0 ==> int_text(i) == seq!['-'] + int_text(-i),
{
}

/// Pressing search clears the results and the error, asks for the text of the search
/// field, and changes nothing else.
pub proof fn lemma_search_location(s: WeatherView)
    ensures
        next(s, MessageView::SearchLocation).0 == (WeatherView {
            geocoded_places: Seq::empty(),
            geocode_error: false,
            ..s
        }),
        next(s, MessageView::SearchLocation).1.config_writes.len() == 0,
        next(s, MessageView::SearchLocation).1.task == TaskView::SearchPlaces(s.location_query),
{
}

/// A finished search shows exactly the places found, or, when it failed, the error
/// with the results as they were; nothing else changes and nothing is started.
pub proof fn lemma_geocode_completed(
    s: WeatherView,
    outcome: Result<Seq<GeocodedPlaceView>, Seq<char>>,
)
    ensures
        next(s, MessageView::GeocodeCompleted(outcome)).0 == (match outcome {
            Ok(places) => WeatherView { geocoded_places: places, ..s },
            Err(_) => WeatherView { geocode_error: true, ..s },
        }),
        next(s, MessageView::GeocodeCompleted(outcome)).1.config_writes.len() == 0,
        next(s, MessageView::GeocodeCompleted(outcome)).1.task == TaskView::Nothing,
{
}

/// The panel button changes only which popup is open and writes nothing.
pub proof fn lemma_toggle_window_changes_only_the_popup(s: WeatherView, fresh: u64)
    ensures
        next(s, MessageView::ToggleWindow(fresh)).0 == (WeatherView {
            popup: next(s, MessageView::ToggleWindow(fresh)).0.popup,
            ..s
        }),
        next(s, MessageView::ToggleWindow(fresh)).1.config_writes.len() == 0,
        next(s, MessageView::PopupClosed(fresh)).1.config_writes.len() == 0,
        next(s, MessageView::PopupClosed(fresh)).1.task == TaskView::Nothing,
{
}

/// Choosing a place, typing a coordinate or typing an interval leaves the popup, the
/// temperature and the presence of a settings store as they were; choosing a place or
/// typing a coordinate leaves the refresh interval and its field as they were.
pub proof fn lemma_edits_keep_the_rest(s: WeatherView, p: GeocodedPlaceView, text: Seq<char>, v: CoordinateView)
    ensures
        ({
            let a = next(s, MessageView::SelectGeocodedPlace(p)).0;
            let b = next(s, MessageView::UpdateLatitude(text, v)).0;
            let c = next(s, MessageView::UpdateLongitude(text, v)).0;
            let d = next(s, MessageView::UpdateRefreshIntervalMinutes(text)).0;
            &&& a.popup == s.popup && a.temperature == s.temperature
            &&& a.refresh_interval_minutes == s.refresh_interval_minutes
            &&& a.refresh_interval_minutes_input == s.refresh_interval_minutes_input
            &&& a.config.refresh_interval_minutes == s.config.refresh_interval_minutes
            &&& b.popup == s.popup && b.temperature == s.temperature
            &&& b.longitude == s.longitude
            &&& b.refresh_interval_minutes == s.refresh_interval_minutes
            &&& b.refresh_interval_minutes_input == s.refresh_interval_minutes_input
            &&& b.config.refresh_interval_minutes == s.config.refresh_interval_minutes
            &&& c.popup == s.popup && c.temperature == s.temperature
            &&& c.latitude == s.latitude
            &&& c.refresh_interval_minutes == s.refresh_interval_minutes
            &&& c.refresh_interval_minutes_input == s.refresh_interval_minutes_input
            &&& c.config.refresh_interval_minutes == s.config.refresh_interval_minutes
            &&& d == (WeatherView {
                refresh_interval_minutes_input: text,
                refresh_interval_minutes: d.refresh_interval_minutes,
                config: d.config,
                ..s
            })
            &&& d.config.latitude == s.config.latitude
            &&& d.config.longitude == s.config.longitude
            &&& d.config.location_name == s.config.location_name
        }),
{
}

} // verus!
