# pi_inky_weather_epd

A weather dashboard for Raspberry Pi e-paper displays. It fetches hourly and
daily forecasts (Bureau of Meteorology or Open-Meteo), fills an SVG template
with the current conditions, a 24-hour graph and a 6-day outlook, and
renders it to PNG.

## Layout

- `src/` is the library, verified with Verus: configuration validation,
  weather icons and WMO codes, unit conversions, the forecast window and
  the table maxima, diagnostics and their priorities, localisation, the
  retry and rate-limit decisions of the fetcher, the geohash of a location
  and the self-update decisions. Every public function states what it
  returns in its contract; the properties that span several functions are
  proved as lemmas (for instance that the dashboard shows the highest
  priority diagnostic whatever order they were reported in).
- `tests/` exercises the library on concrete values.
- `app/` is the program around the library: loading the configuration,
  HTTP requests and the cache files, the floating-point graph drawing, the
  template rendering and the PNG conversion, and the update download.
