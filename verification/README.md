# Herodot

Server application for persisting sensor data. A *reading* is the output of a
sensing instrument (a BME280 or a DS18B20); a *record* is a reading with the
moment of its capture and a unique identifier.

## Layout

- `src/` is the library, written in Verus and verified: the parsing of the
  `Authorization: Bearer <token>` header, the errors and how each is answered,
  the security headers, the record model and the repository's decisions (which
  table a record goes to, how rows become records, in which order a record is
  looked up), users and their Argon2 password hashes, tokens and API keys, and
  the decisions of the login and registration flows.
- `app/` is the server around it: `axum` routing and extractors, PostgreSQL
  through `sqlx`, sessions through `tower-sessions`, Tera templates, logging.
- `tests/` runs the library on concrete values.
