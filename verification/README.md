# bankai

The verified core of the Bankai light-client tooling, written in Verus.

- `src/helpers.rs`: slot, epoch and sync-committee arithmetic, and the slot
  ranges of epoch batches, with their laws.
- `src/atlantic.rs`: the requests sent to the Atlantic prover, as plain
  values, and how its answers become job ids, states or errors.
- `src/routes.rs`: the decisions behind the HTTP routes: reading field
  elements as numbers, job lookups, status figures and error answers.
- `src/text.rs`: decimal rendering of numbers.
- `src/error.rs`, `src/constants.rs`: error types and chain constants.
- `app/`: the unverified I/O around the library (HTTP client, JSON answers,
  renderable error types).

## Not part of this crate

- Trace generation (`generate_epoch_batch_pie`, `generate_epoch_update_pie`,
  `generate_committee_update_pie`), the conversions of epoch, committee and
  batch updates into circuit inputs, and `CairoError`: they build and run the
  types of the `bankai_runner` circuit crate (with `cairo_vm` field elements and
  `num_bigint` integers), and take update types that live elsewhere in the
  Bankai workspace; none of these is a dependency here.
- The axum router (`configure_routes`) and its handlers' extraction of the
  service state: the state type (database manager, Starknet client) lives
  elsewhere in the workspace. `app/routes.rs` builds the handlers' JSON answers
  from the values they fetch, with the decisions taken by `src/routes.rs`.
