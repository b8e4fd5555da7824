# bos_work_queue

The operator work queue: classified inputs become work items per category policy, and
the operator accepts them, dismisses them, or hands them to an agent. Every change runs
through one receipt spine: an audited, revisioned, idempotent mutation.

- `src/` is the verified library. It decides; it touches no database, network or clock.
  - `store_core`, `ledger`, `receipts`, `spine`: the receipt spine, its laws over whole
    ledgers, and the statements it runs.
  - `receipt_query`, `receipt_laws`: what a query over receipts selects, beside the SQL
    that asks for it, and what follows of listings and compactions.
  - `work_queue`: items, policies, emission, the feed, the agent launch, the routes'
    rules. `work_queue/laws.rs` and `work_queue/feed_laws.rs` state what holds across
    functions, and `work_queue/listing_laws.rs` what a list of items holds.
  - `contracts`: the records that travel over the wire.
  - `text`, `lists`, `ordering`, `json`, `sql`: the vocabulary of the contracts.
- `tests/` runs the library, most of it against SQLite in memory.
- `app/` is the shell around it: SQLite, HTTP, the agent monitor, JSON.
