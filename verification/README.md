# arena_ffi

The decision logic behind the C interface of the Arena sandboxing framework,
written in Verus and proved against its contracts.

Arena opens a sandbox of dependencies (databases, brokers, HTTP stubs) and
components (the applications under test). Clients in other languages reach it
through a C interface. This crate holds what that interface decides: how
configurations are validated and planned, how dependency and component trees
are bounded, how HTTP stub mappings become stub plans, how log records are
filtered by allowlists and rendered for the host, how registration tokens are
handed out and released, and which status and message every entry point
answers with.

## Layout

- `src/` — the verified library.
  - `text.rs` — character-level string operations with their specifications.
  - `status.rs`, `ffi.rs`, `boundary.rs`, `port.rs` — statuses, argument
    checks, the answers of the entry points, boundary depth, port searches.
  - `entry.rs` — each entry point as a whole: the order of its checks and
    the status and message it answers with, given what the boundary and
    the arena runtime found at each step.
  - `logging/` — levels, allowlists, payload rendering, delivery to C log
    targets, and the laws of the allowlist filter.
  - `registry.rs` — token registries for log targets and lifecycle observers.
  - `component/`, `dependency/`, `matches.rs` — configurations, per-kind
    validation, and the depth-bounded trees of a match. MSSQL, OAuth and
    Temporal dependencies are built by the arena runtime; the library
    carries their settings through unchanged.
  - `http/` — stub mappings, scoped playbooks, startup stubs.
  - `encounter.rs` — the older encounter description and its defaults.
  - `healthcheck.rs`, `expiry.rs`, `managed_playbook.rs`.
- `tests/` — tests of the library on concrete values.
- `app/` — the C entry points that need no arena runtime, the tracing
  subscriber, readiness polling, and the serde forms of the configurations.
