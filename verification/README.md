# aenv_api

The decisions of a sandbox control plane, verified with Verus: where a sandbox is placed, which node
a request is routed to, when a miss may be called absence, and who may pause, claim, start, renew or
reclaim a sandbox in the paused registry.

- `src/node_client` builds what a node is asked for a launch and turns the scheduler's answers into
  placements.
- `src/node_registry` holds the scheduler service's decisions, the warm-up gate, round-robin
  selection, shadow sampling, fleet reads and the intersection of CPU configs.
- `src/orchestrator` holds the routing verdict and the paused registry: its SQL, what each statement
  does to a row, row decoding, reconcile counters, lease renewal, restart grace and reclaim.
- `src/ids.rs`, `src/text.rs` and `src/time.rs` are the plain values that the rest speaks of.
- `app` performs the I/O: PostgreSQL, metrics, JSON documents, async callers.
- `tests` runs the library on concrete values.

Laws that relate several functions are public proof functions beside the functions they speak of;
those of the CPU-config intersection stand in `src/node_registry/cpu_template_laws.rs`.

A few small functions are trusted rather than proved. Most call one outside function (UUID parsing,
JSON strings, gRPC status text, random numbers, a few functions of the standard library); the one
that puts a port on an address makes three calls into `url`: it parses, sets the port and shows the
result. The doc comment of each says what is believed of it.

What a statement of the paused registry does to a row is proved of the row and table models in
`src/orchestrator`, not of PostgreSQL. `app` runs the SQL texts and never calls the models, so only
reading the two side by side ties them to each other.
