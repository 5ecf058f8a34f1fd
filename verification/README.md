# infrastructure

The infrastructure layer of a personal assistant: circuit breakers, degraded
mode, chaos fault injection, suspicious-activity tracking, cache keys and
cache layers, configuration sections, secret lookups, API-key hashing,
authenticated encryption, and the pure decisions of the adapters for tasks,
contacts, transit, speech, messaging, web search and inference.

Layout:

- `src/` is the library, verified with Verus. Each module states its
  behaviour in `requires`/`ensures` over spec functions; laws that relate
  several calls are public proof functions named `lemma_*`. Calls into
  outside crates (argon2, blake3, chacha20poly1305, chrono, moka, uuid) and
  into the parts of std that vstd does not specify stand behind small trusted
  wrappers, each with a doc comment that says what its contract claims.
- `tests/` runs the library against concrete values.
- `app/` is the unverified code around it: configuration files and
  environment variables (serde), the persistent cache stores (redb, sled),
  the two-layer cache, the HTTP client (reqwest), key and state files, and
  the settings and fault policies that hold floating-point numbers.
