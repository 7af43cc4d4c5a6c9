//! The applet's state and how it reacts to each message: the decisions of the panel
//! applet, from state and message to next state, settings to write and work to start.
use chrono::Timelike;
use vstd::prelude::*;
use crate::config::{
    MOON_ICON, SUN_ICON,
    same_value_bits, Coordinate, CoordinateView, WeatherConfig, WeatherConfigView,
};
use crate::text::{i32_text, int_text, parse_u64, parse_u64_text, u64_text};
use crate::weather::{forecast_url, forecast_url_for, place_label, GeocodedPlace, GeocodedPlaceView};

verus! {

/// What happens in the applet: the user's actions, the timer and finished requests.
pub enum Message {
    /// The refresh timer fired.
    Tick,
    /// The panel button was pressed; the token names the popup that opens, if one does.
    ToggleWindow(u64),
    /// The popup with this token was closed.
    PopupClosed(u64),
    /// A forecast request finished with this temperature.
    UpdateTemperature(i32),
    /// The location search field now holds this text.
    UpdateLocationQuery(String),
    /// The search button was pressed.
    SearchLocation,
    /// A location search finished.
    GeocodeCompleted(Result<Vec<GeocodedPlace>, String>),
    /// A search result was chosen.
    SelectGeocodedPlace(GeocodedPlace),
    /// The latitude field now holds this text, which reads as this coordinate
    /// (0 where it is no number).
    UpdateLatitude(String, Coordinate),
    /// The longitude field now holds this text, which reads as this coordinate
    /// (0 where it is no number).
    UpdateLongitude(String, Coordinate),
    /// The refresh interval field now holds this text.
    UpdateRefreshIntervalMinutes(String),
}

/// Model of a [`Message`].
pub enum MessageView {
    Tick,
    ToggleWindow(u64),
    PopupClosed(u64),
    UpdateTemperature(i32),
    UpdateLocationQuery(Seq<char>),
    SearchLocation,
    GeocodeCompleted(Result<Seq<GeocodedPlaceView>, Seq<char>>),
    SelectGeocodedPlace(GeocodedPlaceView),
    UpdateLatitude(Seq<char>, CoordinateView),
    UpdateLongitude(Seq<char>, CoordinateView),
    UpdateRefreshIntervalMinutes(Seq<char>),
}

impl View for Message {
    type V = MessageView;

    open spec fn view(&self) -> MessageView {
        match self {
            Message::Tick => MessageView::Tick,
            Message::ToggleWindow(t) => MessageView::ToggleWindow(*t),
            Message::PopupClosed(t) => MessageView::PopupClosed(*t),
            Message::UpdateTemperature(v) => MessageView::UpdateTemperature(*v),
            Message::UpdateLocationQuery(q) => MessageView::UpdateLocationQuery(q@),
            Message::SearchLocation => MessageView::SearchLocation,
            Message::GeocodeCompleted(r) => MessageView::GeocodeCompleted(
                match r {
                    Ok(places) => Ok(places.deep_view()),
                    Err(e) => Err(e@),
                },
            ),
            Message::SelectGeocodedPlace(p) => MessageView::SelectGeocodedPlace(p@),
            Message::UpdateLatitude(t, c) => MessageView::UpdateLatitude(t@, c@),
            Message::UpdateLongitude(t, c) => MessageView::UpdateLongitude(t@, c@),
            Message::UpdateRefreshIntervalMinutes(t) => MessageView::UpdateRefreshIntervalMinutes(
                t@,
            ),
        }
    }
}

/// Work that the applet asks its host to start after a message.
pub enum Task {
    /// Nothing.
    Nothing,
    /// Deliver this message next.
    Emit(Message),
    /// Fetch the forecast at this address; its current temperature, or 0 when the
    /// request fails, comes back as [`Message::UpdateTemperature`].
    FetchForecast(String),
    /// Search places matching this text; the outcome comes back as
    /// [`Message::GeocodeCompleted`].
    SearchPlaces(String),
    /// Open the popup with this token.
    OpenPopup(u64),
    /// Close the popup with this token.
    DestroyPopup(u64),
}

/// Model of a [`Task`].
pub enum TaskView {
    Nothing,
    Emit(MessageView),
    FetchForecast(Seq<char>),
    SearchPlaces(Seq<char>),
    OpenPopup(u64),
    DestroyPopup(u64),
}

impl View for Task {
    type V = TaskView;

    open spec fn view(&self) -> TaskView {
        match self {
            Task::Nothing => TaskView::Nothing,
            Task::Emit(m) => TaskView::Emit(m@),
            Task::FetchForecast(url) => TaskView::FetchForecast(url@),
            Task::SearchPlaces(q) => TaskView::SearchPlaces(q@),
            Task::OpenPopup(t) => TaskView::OpenPopup(*t),
            Task::DestroyPopup(t) => TaskView::DestroyPopup(*t),
        }
    }
}

/// A setting that changed and has to be written to the settings store.
pub enum ConfigWrite {
    Latitude(Coordinate),
    Longitude(Coordinate),
    LocationName(String),
    RefreshIntervalMinutes(u64),
}

/// Model of a [`ConfigWrite`].
pub enum ConfigWriteView {
    Latitude(CoordinateView),
    Longitude(CoordinateView),
    LocationName(Seq<char>),
    RefreshIntervalMinutes(u64),
}

impl View for ConfigWrite {
    type V = ConfigWriteView;

    open spec fn view(&self) -> ConfigWriteView {
        match self {
            ConfigWrite::Latitude(c) => ConfigWriteView::Latitude(c@),
            ConfigWrite::Longitude(c) => ConfigWriteView::Longitude(c@),
            ConfigWrite::LocationName(n) => ConfigWriteView::LocationName(n@),
            ConfigWrite::RefreshIntervalMinutes(m) => ConfigWriteView::RefreshIntervalMinutes(*m),
        }
    }
}

impl DeepView for ConfigWrite {
    type V = ConfigWriteView;

    open spec fn deep_view(&self) -> ConfigWriteView {
        self@
    }
}

/// What a message leads to besides the new state: the settings to write, in order,
/// and the work to start.
pub struct Effects {
    pub config_writes: Vec<ConfigWrite>,
    pub task: Task,
}

/// Model of [`Effects`].
pub struct EffectsView {
    pub config_writes: Seq<ConfigWriteView>,
    pub task: TaskView,
}

impl View for Effects {
    type V = EffectsView;

    open spec fn view(&self) -> EffectsView {
        EffectsView { config_writes: self.config_writes.deep_view(), task: self.task@ }
    }
}

/// The applet's state.
pub struct Weather {
    /// Token of the open popup, if one is open.
    pub popup: Option<u64>,
    /// The settings as last set.
    pub config: WeatherConfig,
    /// Whether a settings store is at hand; without one the settings never change.
    pub has_config_handler: bool,
    /// The temperature shown, in degrees Celsius.
    pub temperature: i32,
    /// Text of the location search field.
    pub location_query: String,
    /// Results of the last location search.
    pub geocoded_places: Vec<GeocodedPlace>,
    /// Whether the last location search failed.
    pub geocode_error: bool,
    /// Text of the latitude field.
    pub latitude: String,
    /// Text of the longitude field.
    pub longitude: String,
    /// The refresh interval in minutes.
    pub refresh_interval_minutes: u64,
    /// Text of the refresh interval field.
    pub refresh_interval_minutes_input: String,
}

/// Model of the applet's state.
pub struct WeatherView {
    pub popup: Option<u64>,
    pub config: WeatherConfigView,
    pub has_config_handler: bool,
    pub temperature: i32,
    pub location_query: Seq<char>,
    pub geocoded_places: Seq<GeocodedPlaceView>,
    pub geocode_error: bool,
    pub latitude: Seq<char>,
    pub longitude: Seq<char>,
    pub refresh_interval_minutes: u64,
    pub refresh_interval_minutes_input: Seq<char>,
}

impl View for Weather {
    type V = WeatherView;

    open spec fn view(&self) -> WeatherView {
        WeatherView {
            popup: self.popup,
            config: self.config@,
            has_config_handler: self.has_config_handler,
            temperature: self.temperature,
            location_query: self.location_query@,
            geocoded_places: self.geocoded_places.deep_view(),
            geocode_error: self.geocode_error,
            latitude: self.latitude@,
            longitude: self.longitude@,
            refresh_interval_minutes: self.refresh_interval_minutes,
            refresh_interval_minutes_input: self.refresh_interval_minutes_input@,
        }
    }
}

/// The larger of `minutes` and one.
pub open spec fn at_least_one_minute(minutes: u64) -> u64 {
    if minutes < 1 {
        1
    } else {
        minutes
    }
}

/// The state the applet starts in with the given settings.
pub open spec fn initial_state(config: WeatherConfigView, has_config_handler: bool) -> WeatherView {
    WeatherView {
        popup: None,
        config: config,
        has_config_handler: has_config_handler,
        temperature: 0,
        location_query: config.location_name,
        geocoded_places: Seq::empty(),
        geocode_error: false,
        latitude: config.latitude.text,
        longitude: config.longitude.text,
        refresh_interval_minutes: at_least_one_minute(config.refresh_interval_minutes),
        refresh_interval_minutes_input: int_text(
            at_least_one_minute(config.refresh_interval_minutes) as int,
        ),
    }
}

/// The forecast request for the coordinates in the settings.
pub open spec fn forecast_task_of(s: WeatherView) -> TaskView {
    TaskView::FetchForecast(forecast_url_for(s.config.latitude.text, s.config.longitude.text))
}

/// Setting the latitude: the new settings and the write it needs.
pub open spec fn set_latitude_in(c: WeatherConfigView, v: CoordinateView) -> (
    WeatherConfigView,
    Seq<ConfigWriteView>,
) {
    if same_value_bits(c.latitude.bits, v.bits) {
        (c, Seq::empty())
    } else {
        (WeatherConfigView { latitude: v, ..c }, seq![ConfigWriteView::Latitude(v)])
    }
}

/// Setting the longitude: the new settings and the write it needs.
pub open spec fn set_longitude_in(c: WeatherConfigView, v: CoordinateView) -> (
    WeatherConfigView,
    Seq<ConfigWriteView>,
) {
    if same_value_bits(c.longitude.bits, v.bits) {
        (c, Seq::empty())
    } else {
        (WeatherConfigView { longitude: v, ..c }, seq![ConfigWriteView::Longitude(v)])
    }
}

/// Setting the location name: the new settings and the write it needs.
pub open spec fn set_location_name_in(c: WeatherConfigView, v: Seq<char>) -> (
    WeatherConfigView,
    Seq<ConfigWriteView>,
) {
    if c.location_name == v {
        (c, Seq::empty())
    } else {
        (WeatherConfigView { location_name: v, ..c }, seq![ConfigWriteView::LocationName(v)])
    }
}

/// Setting the refresh interval: the new settings and the write it needs.
pub open spec fn set_refresh_in(c: WeatherConfigView, v: u64) -> (
    WeatherConfigView,
    Seq<ConfigWriteView>,
) {
    if c.refresh_interval_minutes == v {
        (c, Seq::empty())
    } else {
        (
            WeatherConfigView { refresh_interval_minutes: v, ..c },
            seq![ConfigWriteView::RefreshIntervalMinutes(v)],
        )
    }
}

/// Stores a coordinate and clears the location name, as typing a coordinate does:
/// with a settings store, the latitude (`is_latitude`) or longitude is set, then the
/// location name is emptied; without one nothing changes.
pub open spec fn store_typed_coordinate(
    s: WeatherView,
    is_latitude: bool,
    v: CoordinateView,
) -> (WeatherView, Seq<ConfigWriteView>) {
    if s.has_config_handler {
        let (c1, w1) = if is_latitude {
            set_latitude_in(s.config, v)
        } else {
            set_longitude_in(s.config, v)
        };
        let (c2, w2) = set_location_name_in(c1, Seq::empty());
        (WeatherView { config: c2, ..s }, w1 + w2)
    } else {
        (s, Seq::empty())
    }
}

/// The state with the search field, results and search error cleared, as typing a
/// coordinate leaves it.
pub open spec fn clear_search(s: WeatherView) -> WeatherView {
    WeatherView {
        location_query: Seq::empty(),
        geocode_error: false,
        geocoded_places: Seq::empty(),
        ..s
    }
}

/// The state after choosing `p`, before its settings are stored.
pub open spec fn show_place(s: WeatherView, p: GeocodedPlaceView) -> WeatherView {
    WeatherView {
        location_query: place_label(p),
        latitude: p.latitude.text,
        longitude: p.longitude.text,
        geocode_error: false,
        geocoded_places: Seq::empty(),
        ..s
    }
}

/// Stores a chosen place: with a settings store, its latitude, longitude and label
/// as location name, in that order; without one nothing changes.
pub open spec fn store_place(s: WeatherView, p: GeocodedPlaceView) -> (
    WeatherView,
    Seq<ConfigWriteView>,
) {
    if s.has_config_handler {
        let (c1, w1) = set_latitude_in(s.config, p.latitude);
        let (c2, w2) = set_longitude_in(c1, p.longitude);
        let (c3, w3) = set_location_name_in(c2, place_label(p));
        (WeatherView { config: c3, ..s }, w1 + w2 + w3)
    } else {
        (s, Seq::empty())
    }
}

/// How the applet reacts to a message: the next state, the settings to write and
/// the work to start.
pub open spec fn next(s: WeatherView, m: MessageView) -> (WeatherView, EffectsView) {
    match m {
        MessageView::Tick => (s, EffectsView { config_writes: Seq::empty(), task: forecast_task_of(s) }),
        MessageView::ToggleWindow(fresh) => match s.popup {
            Some(id) => (
                WeatherView { popup: None, ..s },
                EffectsView { config_writes: Seq::empty(), task: TaskView::DestroyPopup(id) },
            ),
            None => (
                WeatherView { popup: Some(fresh), ..s },
                EffectsView { config_writes: Seq::empty(), task: TaskView::OpenPopup(fresh) },
            ),
        },
        MessageView::PopupClosed(id) => (
            if s.popup == Some(id) {
                WeatherView { popup: None, ..s }
            } else {
                s
            },
            EffectsView { config_writes: Seq::empty(), task: TaskView::Nothing },
        ),
        MessageView::UpdateTemperature(v) => (
            WeatherView { temperature: v, ..s },
            EffectsView { config_writes: Seq::empty(), task: TaskView::Nothing },
        ),
        MessageView::UpdateLocationQuery(q) => (
            WeatherView { location_query: q, ..s },
            EffectsView { config_writes: Seq::empty(), task: TaskView::Nothing },
        ),
        MessageView::SearchLocation => (
            WeatherView { geocode_error: false, geocoded_places: Seq::empty(), ..s },
            EffectsView {
                config_writes: Seq::empty(),
                task: TaskView::SearchPlaces(s.location_query),
            },
        ),
        MessageView::GeocodeCompleted(r) => (
            match r {
                Ok(places) => WeatherView { geocoded_places: places, ..s },
                Err(_) => WeatherView { geocode_error: true, ..s },
            },
            EffectsView { config_writes: Seq::empty(), task: TaskView::Nothing },
        ),
        MessageView::SelectGeocodedPlace(p) => {
            let (s2, w) = store_place(show_place(s, p), p);
            (s2, EffectsView { config_writes: w, task: forecast_task_of(s2) })
        },
        MessageView::UpdateLatitude(text, v) => {
            let (s2, w) = store_typed_coordinate(
                WeatherView { latitude: text, ..clear_search(s) },
                true,
                v,
            );
            (s2, EffectsView { config_writes: w, task: forecast_task_of(s2) })
        },
        MessageView::UpdateLongitude(text, v) => {
            let (s2, w) = store_typed_coordinate(
                WeatherView { longitude: text, ..clear_search(s) },
                false,
                v,
            );
            (s2, EffectsView { config_writes: w, task: forecast_task_of(s2) })
        },
        MessageView::UpdateRefreshIntervalMinutes(text) => {
            let s1 = WeatherView { refresh_interval_minutes_input: text, ..s };
            match parse_u64(text) {
                Some(n) => {
                    let minutes = at_least_one_minute(n);
                    let s2 = WeatherView { refresh_interval_minutes: minutes, ..s1 };
                    if s.has_config_handler {
                        let (c, w) = set_refresh_in(s2.config, minutes);
                        (
                            WeatherView { config: c, ..s2 },
                            EffectsView { config_writes: w, task: TaskView::Nothing },
                        )
                    } else {
                        (s2, EffectsView { config_writes: Seq::empty(), task: TaskView::Nothing })
                    }
                },
                None => (s1, EffectsView { config_writes: Seq::empty(), task: TaskView::Nothing }),
            }
        },
    }
}


fn store_latitude(config: &mut WeatherConfig, v: Coordinate, writes: &mut Vec<ConfigWrite>)
    ensures
        final(config)@ == set_latitude_in(old(config)@, v@).0,
        final(writes).deep_view() == old(writes).deep_view() + set_latitude_in(old(config)@, v@).1,
{
    let write = ConfigWrite::Latitude(v.clone());
    if config.set_latitude(v) {
        writes.push(write);
    }
    assert(writes.deep_view() =~= old(writes).deep_view() + set_latitude_in(old(config)@, v@).1);
}

fn store_longitude(config: &mut WeatherConfig, v: Coordinate, writes: &mut Vec<ConfigWrite>)
    ensures
        final(config)@ == set_longitude_in(old(config)@, v@).0,
        final(writes).deep_view() == old(writes).deep_view() + set_longitude_in(old(config)@, v@).1,
{
    let write = ConfigWrite::Longitude(v.clone());
    if config.set_longitude(v) {
        writes.push(write);
    }
    assert(writes.deep_view() =~= old(writes).deep_view() + set_longitude_in(old(config)@, v@).1);
}

fn store_location_name(config: &mut WeatherConfig, v: String, writes: &mut Vec<ConfigWrite>)
    ensures
        final(config)@ == set_location_name_in(old(config)@, v@).0,
        final(writes).deep_view() == old(writes).deep_view() + set_location_name_in(
            old(config)@,
            v@,
        ).1,
{
    let write = ConfigWrite::LocationName(v.clone());
    if config.set_location_name(v) {
        writes.push(write);
    }
    assert(writes.deep_view() =~= old(writes).deep_view() + set_location_name_in(
        old(config)@,
        v@,
    ).1);
}

fn store_refresh(config: &mut WeatherConfig, v: u64, writes: &mut Vec<ConfigWrite>)
    ensures
        final(config)@ == set_refresh_in(old(config)@, v).0,
        final(writes).deep_view() == old(writes).deep_view() + set_refresh_in(old(config)@, v).1,
{
    if config.set_refresh_interval_minutes(v) {
        writes.push(ConfigWrite::RefreshIntervalMinutes(v));
    }
    assert(writes.deep_view() =~= old(writes).deep_view() + set_refresh_in(old(config)@, v).1);
}

/// The larger of `minutes` and one.
pub fn at_least_one(minutes: u64) -> (r: u64)
    ensures
        r == at_least_one_minute(minutes),
        r == (if minutes == 0 { 1 } else { minutes }),
{
    if minutes < 1 {
        1
    } else {
        minutes
    }
}

impl Weather {
    /// The applet's first state with the given settings, and the message it starts
    /// with: a tick, which fetches the forecast.
    pub fn init(config: WeatherConfig, has_config_handler: bool) -> (r: (Weather, Task))
        ensures
            r.0@ == initial_state(config@, has_config_handler),
            r.1@ == TaskView::Emit(MessageView::Tick),
    {
        let refresh_interval_minutes = at_least_one(config.refresh_interval_minutes);
        let location_query = config.location_name.clone();
        let latitude = config.latitude.text.clone();
        let longitude = config.longitude.text.clone();
        let weather = Weather {
            popup: None,
            config,
            has_config_handler,
            temperature: 0,
            location_query,
            geocoded_places: Vec::new(),
            geocode_error: false,
            latitude,
            longitude,
            refresh_interval_minutes,
            refresh_interval_minutes_input: u64_text(refresh_interval_minutes),
        };
        assert(weather@.geocoded_places =~= Seq::<GeocodedPlaceView>::empty());
        (weather, Task::Emit(Message::Tick))
    }

    /// The request for the forecast at the coordinates in the settings.
    pub fn forecast_task(&self) -> (r: Task)
        ensures
            r@ == forecast_task_of(self@),
    {
        Task::FetchForecast(
            forecast_url(self.config.latitude.text.as_str(), self.config.longitude.text.as_str()),
        )
    }

    fn clear_places(&mut self)
        ensures
            final(self)@ == (WeatherView { geocoded_places: Seq::empty(), ..old(self)@ }),
    {
        self.geocoded_places = Vec::new();
        assert(self@.geocoded_places =~= Seq::<GeocodedPlaceView>::empty());
    }

    /// Reacts to a message: updates the state and says which settings to write and
    /// which work to start.
    pub fn update(&mut self, message: Message) -> (effects: Effects)
        ensures
            (final(self)@, effects@) == next(old(self)@, message@),
    {
        let mut writes: Vec<ConfigWrite> = Vec::new();
        assert(writes.deep_view() =~= Seq::<ConfigWriteView>::empty());
        match message {
            Message::Tick => {
                let task = self.forecast_task();
                Effects { config_writes: writes, task }
            },
            Message::ToggleWindow(fresh) => {
                match self.popup {
                    Some(id) => {
                        self.popup = None;
                        Effects { config_writes: writes, task: Task::DestroyPopup(id) }
                    },
                    None => {
                        self.popup = Some(fresh);
                        Effects { config_writes: writes, task: Task::OpenPopup(fresh) }
                    },
                }
            },
            Message::PopupClosed(id) => {
                if self.popup == Some(id) {
                    self.popup = None;
                }
                Effects { config_writes: writes, task: Task::Nothing }
            },
            Message::UpdateTemperature(value) => {
                self.temperature = value;
                Effects { config_writes: writes, task: Task::Nothing }
            },
            Message::UpdateLocationQuery(value) => {
                self.location_query = value;
                Effects { config_writes: writes, task: Task::Nothing }
            },
            Message::SearchLocation => {
                self.geocode_error = false;
                self.clear_places();
                let query = self.location_query.clone();
                Effects { config_writes: writes, task: Task::SearchPlaces(query) }
            },
            Message::GeocodeCompleted(result) => {
                match result {
                    Ok(places) => {
                        self.geocoded_places = places;
                    },
                    Err(_) => {
                        self.geocode_error = true;
                    },
                }
                Effects { config_writes: writes, task: Task::Nothing }
            },
            Message::SelectGeocodedPlace(place) => {
                let ghost p = place@;
                self.location_query = place.label();
                self.latitude = place.latitude.text.clone();
                self.longitude = place.longitude.text.clone();
                self.geocode_error = false;
                self.clear_places();
                assert(self@ == show_place(old(self)@, p));
                if self.has_config_handler {
                    store_latitude(&mut self.config, place.latitude, &mut writes);
                    store_longitude(&mut self.config, place.longitude, &mut writes);
                    let name = self.location_query.clone();
                    store_location_name(&mut self.config, name, &mut writes);
                }
                let task = self.forecast_task();
                Effects { config_writes: writes, task }
            },
            Message::UpdateLatitude(value, coordinate) => {
                self.latitude = value;
                self.location_query = String::new();
                self.geocode_error = false;
                self.clear_places();
                if self.has_config_handler {
                    store_latitude(&mut self.config, coordinate, &mut writes);
                    store_location_name(&mut self.config, String::new(), &mut writes);
                }
                let task = self.forecast_task();
                Effects { config_writes: writes, task }
            },
            Message::UpdateLongitude(value, coordinate) => {
                self.longitude = value;
                self.location_query = String::new();
                self.geocode_error = false;
                self.clear_places();
                if self.has_config_handler {
                    store_longitude(&mut self.config, coordinate, &mut writes);
                    store_location_name(&mut self.config, String::new(), &mut writes);
                }
                let task = self.forecast_task();
                Effects { config_writes: writes, task }
            },
            Message::UpdateRefreshIntervalMinutes(value) => {
                let parsed = parse_u64_text(value.as_str());
                self.refresh_interval_minutes_input = value;
                if let Some(n) = parsed {
                    let minutes = at_least_one(n);
                    self.refresh_interval_minutes = minutes;
                    if self.has_config_handler {
                        store_refresh(&mut self.config, minutes, &mut writes);
                    }
                }
                Effects { config_writes: writes, task: Task::Nothing }
            },
        }
    }
}


/// The unit shown after the temperature.
pub open spec fn celsius_suffix() -> Seq<char> {
    seq!['°', 'C']
}

/// Whether the applet shows its day icon at this hour: from 6:00 until 18:00.
pub open spec fn is_day_hour(hour: u32) -> bool {
    6 <= hour < 18
}

/// `chrono::Local::now().hour()`: the current hour of the local time of day, which
/// chrono documents as a number from 0 to 23. Which hour comes back depends on the
/// clock and the time zone, so nothing more is stated of it.
#[verifier::external_body]
fn local_hour() -> (hour: u32)
    ensures
        hour < 24,
{
    chrono::Local::now().hour()
}

/// The icon for the given hour of the day: the sun by day, the moon by night.
pub fn icon_for_hour(hour: u32) -> (r: &'static str)
    ensures
        r == (if is_day_hour(hour) { SUN_ICON } else { MOON_ICON }),
        r == (if 6 <= hour && hour < 18 { SUN_ICON } else { MOON_ICON }),
{
    if 6 <= hour && hour < 18 {
        SUN_ICON
    } else {
        MOON_ICON
    }
}

/// The icon for the current local time: the sun from 6:00 until 18:00, else the moon.
pub fn current_icon() -> (r: &'static str)
    ensures
        r == SUN_ICON || r == MOON_ICON,
{
    icon_for_hour(local_hour())
}

/// The temperature that a finished forecast request shows: the one it brought, or 0
/// when the request failed.
pub fn fetched_temperature(fetched: Option<i32>) -> (t: i32)
    ensures
        t == match fetched {
            Some(t) => t,
            None => 0,
        },
{
    match fetched {
        Some(t) => t,
        None => 0,
    }
}

impl Weather {
    /// The temperature as the panel shows it: degrees and `°C`.
    pub fn format_temperature(&self) -> (r: String)
        ensures
            r@ == int_text(self.temperature as int) + celsius_suffix(),
            r@ == int_text(self.temperature as int) + seq!['°', 'C'],
    {
        let mut text = i32_text(self.temperature);
        proof {
            reveal_strlit("°C");
        }
        text.append("°C");
        text
    }

    /// Seconds between two forecast refreshes: the refresh interval, at least one
    /// minute, times sixty. The product must fit in 64 bits.
    pub fn refresh_interval_secs(&self) -> (r: u64)
        requires
            at_least_one_minute(self.refresh_interval_minutes) * 60 <= u64::MAX,
        ensures
            r == at_least_one_minute(self.refresh_interval_minutes) * 60,
            r == (if self.refresh_interval_minutes == 0 { 1 } else { self.refresh_interval_minutes }) * 60,
    {
        at_least_one(self.refresh_interval_minutes) * 60
    }
}

} // verus!
