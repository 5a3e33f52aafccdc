# person_db

A person registry web service (actix-web over PostgreSQL, Redis and RabbitMQ)
whose decisions live in a library verified with Verus.

- `src/` — the verified library:
  - `config/` — connection URLs and defaults of every service, settings fallback.
  - `controller.rs` — payload size limits and the request flows of the HTTP
    handlers, as state machines that ask for store, queue and cache actions.
  - `data_access/` — person records, the PostgreSQL array and bulk-load (COPY)
    text encodings, the search pattern, and the warm-up requests.
  - `queue.rs` — the chunked draining of the creation queue.
  - `ids.rs`, `dates.rs` — identifiers and birth dates, backed by the `uuid`
    and `chrono` crates.
  - `text.rs` — decimal rendering and string building.
- `app/` — the server binary: HTTP, database, cache and broker I/O, driving the
  library's flows.
- `tests/` — tests of the library on concrete values.
