# rots_authserver

Authentication server for Discord (OAuth) and Steam logins.

- `src/` is the verified library: the configuration and its OAuth
  settings, login tokens and states (random bytes in hexadecimal), the
  Discord authorization URL and token request, the replies the server
  sends, and the two login flows as state machines (`callback` for the
  Discord callback, `steam` for the weak Steam login). Each flow takes the
  outcome of the last database statement or Discord request and names the
  next one, until it answers.
- `app/` is the program around it: command line, PostgreSQL, the axum
  router and handlers, and the HTTP requests to Discord. Each handler runs
  its flow, performing the actions it asks for.
- `tests/` runs the library on concrete values.
