# omnikv

Verified logic of a key-value store client stack:

- `src/kv.rs` – commands and client/server messages.
- `src/database.rs` – the store a server applies commands to, with laws on reads after writes.
- `src/client.rs` – the decisions of the client's benchmark loop (`run_step`) and HTTP loop (`http_request`, `HttpQueries::http_reply`).
- `src/client_data.rs` – the client's request log, keyed by command id.
- `src/client_laws.rs` – laws over whole runs of both loops.
- `src/http_client.rs` – the HTTP shim's commands and answers.
- `src/maelstrom_proxy.rs` – the Maelstrom `lin-kv` proxy: per request, the call to the shim or the reply; per shim answer, the reply.
- `src/decimal.rs` – decimal rendering and parsing of integers, with a round-trip law.

`app/` holds the I/O: the Maelstrom runtime and HTTP calls (`main.rs`), the axum endpoints, and the client's async loops.
