# aether_keeper

A keeper registry for interval-based task automation, written in Verus.

- `src/` is the verified library. `registry` holds the task registry: every
  operation either fails with a `host::Refusal` (the error, and the caller
  whose authorization the host requires before reporting it) and leaves the
  registry unchanged, or succeeds and returns a `host::Plan` — the authorization it needs, the token transfers, the target-contract call and
  the events that the ledger host must carry out, in order. `model` states
  what each operation does; `laws` proves properties across operations
  (every change is authorized by the right party, custody follows transfers
  token by token, no early re-execution whatever happens in between, pause/resume and
  deposit/withdraw round trips, fresh identifiers, the keeper and the
  registry agreeing on readiness, bounded exponential backoff). `executor`
  and `config` hold the keeper's decisions: which tasks are ready, batch
  sizes, status filters and the retry policy.
- `app/` is plain Rust around the library: the keeper command-line program
  (configuration file, polling loop, submissions), and the Soroban contract
  that loads the registry from ledger storage, performs each plan's host
  calls and publishes its events.
- `tests/` exercise the library on concrete values.
