# ha_localizer

Relays the location and time zone of a phone, as Home Assistant reports
them, to a Linux machine: an Ichnaea-style HTTP service for Geoclue
(`geoip`), an NMEA socket (`nmea`), and the `/etc/localtime` link
(`timezone-sync`, and the older `time-sync`).

- `src/` is the verified library: the URLs and headers of the requests made
  of Home Assistant, the HTTP replies and NMEA sentences written to Geoclue,
  and the step-by-step decisions of the services.
- `app/` is the program around it: configuration file, sockets, files, the
  HTTP client, JSON, and the floating-point arithmetic of the NMEA fields.
  Its first argument names the service.
- `tests/` runs the library on concrete values.
