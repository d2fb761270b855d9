# corekit

Ergonomics for backend services, with their rules proved by Verus:

- `#[derive(EnvConfig)]` / `#[env_config]`: load a struct from environment
  variables (after a `.env` file), with defaults, optional fields, trimming,
  non-empty strings, numeric bounds and comma-separated `Vec<T>` fields (with
  empty items filtered, length bounds and per-item bounds), reporting every
  failing variable at once.
- `#[retry]`: retry an async function on retryable errors with capped
  exponential backoff and optional jitter.
- `#[timeout]`: bound an async function by a deadline.
- `#[singleton]`: a lazily built shared instance.
- `SecretString`, `with_prefix`, `VecInto`.

## Layout

- `src/` is the verified library. The macros' decisions live here as plain
  functions with contracts: reading their arguments (`parse_*`), planning the
  expansion (`plan_*`, `check_*`), the run-time steps the expansions call
  (`RetryState::on_failure`, `EnvLoader`, `timeout_result`), the variable
  naming rule, duration strings, and the error types. Public `lemma_*` proof
  functions state the laws that span calls (the backoff formula, the policy
  bounds, how defaults and optional fields stand in for unset variables, that
  a whole load reports each failing field once and in order, the naming
  rule's idempotence).
- `app/` reads the annotated items with `syn`, hands the library plain values,
  and writes the expansions with `quote`; it also gives the error and secret
  types `Display`.
- `tests/` runs the library on concrete values, including the scenarios the
  macros' expansions go through.
