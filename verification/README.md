# armature_cqrs

Command and query buses for CQRS. Each bus routes a message-type key to the
one handler registered for it; registering again under a key replaces the
handler, and executing a message whose type has no handler fails with
`HandlerNotFound`.

- `src/registry.rs`: the key-to-handler table (a `dashmap::DashMap` from key
  to slot, plus a slot vector), its invariant, and the dispatch laws.
- `src/command.rs`, `src/query.rs`: the `Command`/`Query` traits, the error
  types and their messages, typed handler wrappers, the buses, and the
  decision that turns a handler's type-erased outcome into the result.
- `app/`: the async handler traits, type erasure with `std::any`, the
  `await` of a handler, and error types with `Display` through `thiserror`.
