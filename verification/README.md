# OmniChat

A messaging aggregator that hosts Ferdium-compatible service recipes in
separate CEF web views, with a sidebar of services, an IPC channel between the
pages and the host, idle-service freezing and hibernation, and SQLite
persistence.

The crate is split in two:

- `src/` is the library, verified with Verus: the service model and its
  runtime state, the lifecycle decisions, the IPC trust boundary and
  dispatcher, the recipe selection and the JavaScript injected into service
  pages, the app's own HTML pages and sidebar scripts, percent-decoding of IPC
  URLs, settings storage rows, `package.json` recipes, the single-instance
  pid files, and PNG framing with CRC-32.
- `app/` is the host program: CEF windows, views and handlers, the database,
  files, the tray icon and OS notifications. It parses IPC messages, hands
  them to `AppState::dispatch`, and carries out the effects that come back.

Laws of the library stand in `src/` as public proof functions (their names
begin with `lemma_`); `tests/` runs the library on concrete values.
