# weather_applet

The verified core of a COSMIC panel applet that shows the current temperature at a
chosen place, with a popup for searching a place by name, typing coordinates and
setting the refresh interval.

- `src/` is the library, verified with Verus. `applet.rs` holds the applet state and
  `Weather::update`, whose contract is the transition function `next`: for each
  message, the next state, the settings to write and the work to start (fetch a
  forecast, search places, open or close the popup). `config.rs` holds the settings,
  their defaults, setters and the migration from older layouts. `weather.rs` builds
  the forecast address and the place-search parameters and reduces the services'
  answers. `laws.rs` proves what holds across messages. `text.rs` states the string
  operations used.
- `app/` is the COSMIC application: widgets, the settings store, the HTTP requests
  and JSON decoding, and the floating-point conversions. Coordinates reach the
  library as the bit pattern and display text of their `f64` value.
- `tests/` runs the library on concrete values.
