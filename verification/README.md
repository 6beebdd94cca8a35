# jimo

The domain core of the Jimo content platform, written in Verus.

- `src/perm_code.rs`: dotted permission codes (`A.B.C`), their parents,
  ancestors and segments, with the laws that tie splitting and joining together.
- `src/common/`: the event-sourcing machinery. A `Context` applies events to an
  aggregate, records each applied one in an `Envelope` with the next version,
  and `rehydrate` replays stored envelopes; `replay` and `rebuild` are the spec
  functions its contracts speak of.
- `src/aggregate/`: the aggregates (perm, post, role, tag, taxonomy, user, user
  profile), each with its event type and the step function `next`.
- `src/usecase/`: the decisions of the IAM, post and taxonomy use cases, taking
  fetched contexts and query answers as arguments.
- `src/projection.rs`, `src/conf.rs`, `src/server.rs`: read models, configuration
  storage and server settings.
- `app/`: the running program around the library: configuration files, the
  event store interfaces, the HTTP server, and the plugin route registry with
  the listing of plugin files. The WebAssembly plugin host (loading and running
  plugins through wasmtime) is not part of this crate: wasmtime is not among
  its dependencies.
