//! The applet's persistent settings: where the weather is looked up and how often.
use vstd::prelude::*;

verus! {

/// Version of the settings layout that the applet reads and writes.
pub const CONFIG_VERSION: u64 = 3;
/// Earlier settings layout: coordinates and refresh interval.
pub const LEGACY_CONFIG_VERSION_V2: u64 = 2;
/// First settings layout: coordinates and a temperature unit flag.
pub const LEGACY_CONFIG_VERSION_V1: u64 = 1;

/// Identifier of the applet, also sent as the HTTP user agent.
pub const APP_ID: &'static str = "io.github.cosmic_utils.weather-applet";
/// Icon shown by day.
pub const SUN_ICON: &'static str = "io.github.cosmic_utils.weather-applet-symbolic-sun";
/// Icon shown by night.
pub const MOON_ICON: &'static str = "io.github.cosmic_utils.weather-applet-symbolic-moon";

/// Refresh interval, in minutes, of a fresh configuration.
pub const DEFAULT_REFRESH_INTERVAL_MINUTES: u64 = 10;

/// Whether the binary64 bit pattern `b` is a NaN.
pub open spec fn is_nan_bits(b: u64) -> bool {
    &&& (b & 0x7ff0_0000_0000_0000u64) == 0x7ff0_0000_0000_0000u64
    &&& (b & 0x000f_ffff_ffff_ffffu64) != 0
}

/// Whether the binary64 bit pattern `b` is positive or negative zero.
pub open spec fn is_zero_bits(b: u64) -> bool {
    (b & 0x7fff_ffff_ffff_ffffu64) == 0
}

/// IEEE-754 equality of two binary64 values given by their bit patterns:
/// NaN equals nothing, the two zeros are equal, otherwise the patterns must match.
pub open spec fn same_value_bits(a: u64, b: u64) -> bool {
    &&& !is_nan_bits(a)
    &&& !is_nan_bits(b)
    &&& (a == b || (is_zero_bits(a) && is_zero_bits(b)))
}

/// A latitude or longitude in degrees, as the applet holds it: the bit pattern of
/// the binary64 value and the decimal text that the value displays as.
#[derive(Debug)]
pub struct Coordinate {
    pub bits: u64,
    pub text: String,
}

/// Model of a [`Coordinate`].
pub struct CoordinateView {
    pub bits: u64,
    pub text: Seq<char>,
}

impl View for Coordinate {
    type V = CoordinateView;

    open spec fn view(&self) -> CoordinateView {
        CoordinateView { bits: self.bits, text: self.text@ }
    }
}

impl DeepView for Coordinate {
    type V = CoordinateView;

    open spec fn deep_view(&self) -> CoordinateView {
        self@
    }
}

impl Clone for Coordinate {
    fn clone(&self) -> (r: Self)
        ensures
            r == *self,
    {
        Coordinate { bits: self.bits, text: self.text.clone() }
    }
}

impl Coordinate {
    /// The coordinate 0.0, which displays as `0`.
    pub fn zero() -> (r: Coordinate)
        ensures
            r@.bits == 0,
            r@.text == seq!['0'],
    {
        let text = String::from_str("0");
        proof {
            reveal_strlit("0");
        }
        Coordinate { bits: 0, text }
    }

    /// Whether the two coordinates are equal as numbers (`f64` equality).
    pub fn same_value(&self, other: &Coordinate) -> (r: bool)
        ensures
            r == same_value_bits(self.bits, other.bits),
    {
        let a = self.bits;
        let b = other.bits;
        let a_nan = (a & 0x7ff0_0000_0000_0000u64) == 0x7ff0_0000_0000_0000u64
            && (a & 0x000f_ffff_ffff_ffffu64) != 0;
        let b_nan = (b & 0x7ff0_0000_0000_0000u64) == 0x7ff0_0000_0000_0000u64
            && (b & 0x000f_ffff_ffff_ffffu64) != 0;
        !a_nan && !b_nan && (a == b || ((a & 0x7fff_ffff_ffff_ffffu64) == 0 && (b
            & 0x7fff_ffff_ffff_ffffu64) == 0))
    }
}

/// The applet's settings.
#[derive(Debug)]
pub struct WeatherConfig {
    pub latitude: Coordinate,
    pub longitude: Coordinate,
    pub refresh_interval_minutes: u64,
    pub location_name: String,
}

/// Model of a [`WeatherConfig`].
pub struct WeatherConfigView {
    pub latitude: CoordinateView,
    pub longitude: CoordinateView,
    pub refresh_interval_minutes: u64,
    pub location_name: Seq<char>,
}

impl View for WeatherConfig {
    type V = WeatherConfigView;

    open spec fn view(&self) -> WeatherConfigView {
        WeatherConfigView {
            latitude: self.latitude@,
            longitude: self.longitude@,
            refresh_interval_minutes: self.refresh_interval_minutes,
            location_name: self.location_name@,
        }
    }
}

/// The settings of a fresh installation: coordinates 0, 0, a ten-minute refresh
/// interval and no location name.
pub open spec fn default_config() -> WeatherConfigView {
    WeatherConfigView {
        latitude: CoordinateView { bits: 0, text: seq!['0'] },
        longitude: CoordinateView { bits: 0, text: seq!['0'] },
        refresh_interval_minutes: 10,
        location_name: Seq::empty(),
    }
}

impl Clone for WeatherConfig {
    fn clone(&self) -> (r: Self)
        ensures
            r == *self,
    {
        WeatherConfig {
            latitude: self.latitude.clone(),
            longitude: self.longitude.clone(),
            refresh_interval_minutes: self.refresh_interval_minutes,
            location_name: self.location_name.clone(),
        }
    }
}

impl Default for WeatherConfig {
    fn default() -> (r: Self)
        ensures
            r@ == default_config(),
            r.latitude.bits == 0,
            r.latitude.text@ == seq!['0'],
            r.longitude.bits == 0,
            r.longitude.text@ == seq!['0'],
            r.refresh_interval_minutes == 10,
            r.location_name@.len() == 0,
    {
        WeatherConfig {
            latitude: Coordinate::zero(),
            longitude: Coordinate::zero(),
            refresh_interval_minutes: DEFAULT_REFRESH_INTERVAL_MINUTES,
            location_name: String::new(),
        }
    }
}


impl WeatherConfig {
    /// Sets the latitude unless it already holds an equal value; says whether it
    /// changed, that is whether the setting has to be written out.
    pub fn set_latitude(&mut self, value: Coordinate) -> (changed: bool)
        ensures
            changed == !same_value_bits(old(self).latitude.bits, value.bits),
            final(self)@ == (WeatherConfigView {
                latitude: if changed { value@ } else { old(self)@.latitude },
                ..old(self)@
            }),
    {
        if !self.latitude.same_value(&value) {
            self.latitude = value;
            true
        } else {
            false
        }
    }

    /// Sets the longitude unless it already holds an equal value; says whether it
    /// changed.
    pub fn set_longitude(&mut self, value: Coordinate) -> (changed: bool)
        ensures
            changed == !same_value_bits(old(self).longitude.bits, value.bits),
            final(self)@ == (WeatherConfigView {
                longitude: if changed { value@ } else { old(self)@.longitude },
                ..old(self)@
            }),
    {
        if !self.longitude.same_value(&value) {
            self.longitude = value;
            true
        } else {
            false
        }
    }

    /// Sets the refresh interval unless it already holds that value; says whether it
    /// changed.
    pub fn set_refresh_interval_minutes(&mut self, value: u64) -> (changed: bool)
        ensures
            changed == (old(self).refresh_interval_minutes != value),
            final(self)@ == (WeatherConfigView { refresh_interval_minutes: value, ..old(self)@ }),
    {
        if self.refresh_interval_minutes != value {
            self.refresh_interval_minutes = value;
            true
        } else {
            false
        }
    }

    /// Sets the location name unless it already holds that text; says whether it
    /// changed.
    pub fn set_location_name(&mut self, value: String) -> (changed: bool)
        ensures
            changed == (old(self).location_name@ != value@),
            final(self)@ == (WeatherConfigView { location_name: value@, ..old(self)@ }),
    {
        if self.location_name != value {
            self.location_name = value;
            true
        } else {
            false
        }
    }
}

/// The settings as the second layout stored them.
pub struct V2WeatherConfig {
    pub latitude: Coordinate,
    pub longitude: Coordinate,
    pub refresh_interval_minutes: u64,
}

impl Default for V2WeatherConfig {
    fn default() -> (r: Self)
        ensures
            r.latitude@ == default_config().latitude,
            r.longitude@ == default_config().longitude,
            r.refresh_interval_minutes == 10,
    {
        V2WeatherConfig {
            latitude: Coordinate::zero(),
            longitude: Coordinate::zero(),
            refresh_interval_minutes: DEFAULT_REFRESH_INTERVAL_MINUTES,
        }
    }
}

/// The settings as the first layout stored them.
pub struct V1WeatherConfig {
    pub latitude: Coordinate,
    pub longitude: Coordinate,
    pub use_fahrenheit: bool,
}

impl Default for V1WeatherConfig {
    fn default() -> (r: Self)
        ensures
            r.latitude@ == default_config().latitude,
            r.longitude@ == default_config().longitude,
            !r.use_fahrenheit,
    {
        V1WeatherConfig {
            latitude: Coordinate::zero(),
            longitude: Coordinate::zero(),
            use_fahrenheit: false,
        }
    }
}

impl WeatherConfig {
    /// The current settings made from second-layout settings: the coordinates and the
    /// refresh interval carry over, the location name is empty.
    pub fn migrate_from_v2(v2: V2WeatherConfig) -> (r: WeatherConfig)
        ensures
            r@ == (WeatherConfigView {
                latitude: v2.latitude@,
                longitude: v2.longitude@,
                refresh_interval_minutes: v2.refresh_interval_minutes,
                location_name: Seq::empty(),
            }),
    {
        WeatherConfig {
            latitude: v2.latitude,
            longitude: v2.longitude,
            refresh_interval_minutes: v2.refresh_interval_minutes,
            location_name: String::new(),
        }
    }

    /// The current settings made from first-layout settings: the coordinates carry
    /// over, the refresh interval is the default one, the location name is empty and
    /// the temperature unit flag is dropped.
    pub fn migrate_from_v1(v1: V1WeatherConfig) -> (r: WeatherConfig)
        ensures
            r@ == (WeatherConfigView {
                latitude: v1.latitude@,
                longitude: v1.longitude@,
                refresh_interval_minutes: default_config().refresh_interval_minutes,
                location_name: Seq::empty(),
            }),
    {
        let default = WeatherConfig::default();
        WeatherConfig {
            latitude: v1.latitude,
            longitude: v1.longitude,
            refresh_interval_minutes: default.refresh_interval_minutes,
            location_name: String::new(),
        }
    }

    /// The settings the applet starts with: the stored current settings when they
    /// could be read; else those migrated from the second layout, when they could be
    /// read; else those migrated from the first layout, when its store could be
    /// opened; else the defaults. A later source is consulted only when every earlier
    /// one is `None`, so a caller need not read it otherwise.
    pub fn config(
        current: Option<WeatherConfig>,
        v2: Option<V2WeatherConfig>,
        v1: Option<V1WeatherConfig>,
    ) -> (r: WeatherConfig)
        ensures
            r@ == (match (current, v2, v1) {
                (Some(c), _, _) => c@,
                (None, Some(v2), _) => WeatherConfigView {
                    latitude: v2.latitude@,
                    longitude: v2.longitude@,
                    refresh_interval_minutes: v2.refresh_interval_minutes,
                    location_name: Seq::empty(),
                },
                (None, None, Some(v1)) => WeatherConfigView {
                    latitude: v1.latitude@,
                    longitude: v1.longitude@,
                    refresh_interval_minutes: default_config().refresh_interval_minutes,
                    location_name: Seq::empty(),
                },
                (None, None, None) => default_config(),
            }),
    {
        match current {
            Some(c) => c,
            None => match v2 {
                Some(v2) => WeatherConfig::migrate_from_v2(v2),
                None => match v1 {
                    Some(v1) => WeatherConfig::migrate_from_v1(v1),
                    None => WeatherConfig::default(),
                },
            },
        }
    }
}

} // verus!
