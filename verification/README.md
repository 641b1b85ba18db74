# oxidian

A Discord bot library whose logic is verified with Verus.

## Layout

- `src/` — the verified library.
  - `models/`, `snowflake.rs`, `permissions.rs`, `intents.rs`, `json.rs`,
    `error.rs`: Discord's data types, ID and bit-flag types, a JSON value
    with a mathematical model, and the error types with their messages.
  - `gateway/`: opcodes, typed payloads, and the decisions of the
    heartbeat task, the connection's event loop and a shard's reconnect
    policy.
  - `http/`: REST routes (method, URL, rate-limit bucket), the rate limiter,
    and what each response leads to.
  - `voice/`: voice gateway payloads, UDP packets, RTP headers and
    AES-256-GCM packet sealing, and the DAVE transition state.
  - `interactions/`: application commands and message components, with
    their JSON.
  - `cache/`: the in-memory cache and how each gateway event changes it.
  - `bot/`: prefix-command parsing, interaction routing, the command
    registry and shard counts.
  - `utils/`: CDN URLs, mentions and timestamps.
- `tests/` — tests of the library on concrete values.
- `app/` — the runtime around the library: sockets, HTTP requests, async
  tasks, serde encodings, Opus through libopus, and logging.

Contracts are stated over models (`Seq`, `Map`, spec functions, views);
laws that relate several functions are public proof functions named
`lemma_*`.
