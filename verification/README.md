# openchat_core

The verified core of the OpenChat API server: the decisions that the HTTP
handlers, caches and background work make, written in Verus with their
contracts proved.

- `src/` — the library. Each module holds the rules of one area (messages,
  calls, polls, uploads, workflows, search, cache keys and their
  invalidation, rate limiting, configuration, ...) as functions from plain
  values to plain values, with `requires`/`ensures` over mathematical models,
  and the laws of the area as public proof functions (`law_*`).
- Calls into outside crates (uuid, sha2, regex, chrono, base64, mime_guess)
  go through a few small trusted wrappers whose doc comments say what is
  believed of them.
- `tests/` — tests run against the compiled library.
- `app/` — a small command-line program that reads the configuration from
  the environment through the library.
