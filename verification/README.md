# apache_iggy configuration

The client configuration of the Apache Iggy Python binding, as a Verus-verified
Rust library: credentials replayed on connect (`AutoLogin`), the TCP
reconnection policy (`TcpReconnectionConfig`), the TCP and HTTP transport
settings (`TcpConfig`, `HttpConfig`), their validation, and the `repr` text
that Python shows for each.

- `src/` is the verified library. `text` holds decimal numerals and the
  whitespace trimming as `str::trim` does it, and the quoting it relies on; `duration` reads Python
  `timedelta` fields and writes their `repr`; `error` holds the refusals and
  their messages; `auto_login`, `reconnection`, `tcp` and `http` hold the
  configuration types; `laws` states properties across functions.
- The iggy client's defaults and its address and URL checks are called
  through small trusted wrappers next to the code that uses them.
- `app/` holds the `pyo3` classes, which convert Python values to the
  library's and the library's values to the iggy client's types.
- `tests/` exercises the library on concrete values.
