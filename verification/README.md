# aqio

The rules of an event management service, written in Verus and proved
against their contracts: events, categories, users, invitations and
registrations; what the storage layer makes of database failures and
stored rows; and what the HTTP API answers.

## Layout

- `src/domain/` – the entities, their errors and the domain rules
  (capacity, waiting lists, invitation answers, cancellation, check-in).
- `src/persistence/` – how storage failures become domain errors, how
  foreign-key violations are explained, how stored values are named, how
  rows are written and read back, and which conditions a listing filter
  adds to a query.
- `src/api/` – API errors and their status codes, request validation and
  conversion, authentication helpers, the decisions behind each endpoint,
  in-memory repositories and test fixtures.
- `src/ids.rs`, `src/clock.rs`, `src/text.rs` – UUIDs, the current time and
  text helpers, each outside call behind a small trusted function.
- `app/` – the HTTP server: routing, the SQLite repositories and JSON
  encoding, which hand plain values to the library and act on its answers.
- `tests/` – tests of the library on concrete values.

Laws that relate several functions are public proof functions named
`law_*`; each states in its documentation what it proves.
