# ferricord

A Discord API client library whose logic is proved with Verus: the models
(IDs, permission and intent bit sets, users, guilds, channels, messages,
interactions), the REST routes and rate limiter, the gateway shard's protocol
state machine, the zlib frame buffer of the gateway connection, and the
cache with its policies.

Layout:

- `src/` — the verified library. Each public function states in its contract
  what it returns or how it changes its receiver; the laws that relate several
  operations are public `proof fn`s named `law_*`.
  - `tables.rs` holds the cache's `dashmap`/`lru` collections behind small
    trusted functions whose contracts describe each operation over a map of
    plain values.
- `tests/` — tests run against the compiled library.
- `app/` — the I/O around the library: the WebSocket gateway connection and
  shard loop (tokio-tungstenite), the REST client (reqwest), the serde forms
  of the models, and the Python bindings (PyO3).
