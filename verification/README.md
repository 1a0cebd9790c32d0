# sure

The domain logic of a household-finance ledger, verified with Verus.

- `src/` is the library. Its functions are proved against their contracts, apart from a few
  small wrappers around chrono, the clock and std's text functions, whose contracts are
  trusted and say so. It covers money and dates that cannot hold an invalid value, the error
  type and what a client is told, imports and their sources, life events and their stored
  columns, income and commitments, the rule engine's decisions, provider syncs and polls,
  report arithmetic (exact totals, the category tree, spend filters and buckets, sampling
  dates, the balance walk), the stock-price refresh, balance deltas, and the bookkeeping of
  the process lifecycle's shutdown. The background sweeps, a provider sync and a one-price
  lookup are step functions: each takes what just happened and says what to do next.
- `tests/` exercises the library on concrete values.
- `app/` is the edge: serde wire forms, the error type's `Display`, the rule-expression
  evaluator, the loops that run the step functions against the outside world, the reports
  whose totals are floating point, the tokio-driven process lifecycle and log output.
