# mipsorcu

Server-side logic of a secret-management service whose audit ledger is a
signed hash chain, written in Verus: each function states its behaviour in
`requires` / `ensures` and Verus proves it.

## Layout

- `src/` — the verified library.
  - `text`, `encoding` — string and byte helpers (decimal text, trimming,
    comma lists, hex and `bytea` encoding) with their round-trip laws.
  - `ledger`, `audit`, `clock` — monthly digest periods, digest hashes, audit
    outcome types, and the clock read.
  - `siem` — SIEM events, the local fallback buffer (replay, pending batches,
    compaction, rotation names, capacity decisions), the retry policy and the
    forwarding step function, and the in-memory sinks.
  - `timestamping` — timestamp tokens, the dummy backend, the retry state
    machine over several backends, and RFC 3161 request building, response
    parsing and token verification.
  - `server` — readiness state, the scheduler (hash-chain and signature
    verification, cadences, run bookkeeping), the use cases as step
    functions from stage and outcome to next stage and action (digest
    generation, chain restore and verification, timestamp requests and the
    `send` command, archive export, decryption, rotation with version
    retention, the secret-alias operations), response validation for the
    database RPCs, and argument parsing of the command-line tools.
- `tests/` — tests run against the compiled library.
- `app/` — a partial unverified shell: the Supabase HTTP client and readiness
  probe, shared readiness state behind a lock, the SIEM HTTP exporters, and
  the timestamping backends with their retry loop. It does not drive the
  use-case step functions, the SIEM forwarder or the buffer's files.
