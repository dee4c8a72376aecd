# quantix

The decision, validation and report logic of the quantix command line for
A-share research and trading, written in Verus: every function in `src/` carries
a contract over a mathematical model of its inputs and is proved against it.

- `src/commands/` — the command tree as plain enums.
- `src/text.rs`, `src/decimal.rs`, `src/dates.rs` — text, decimal and date
  primitives; `src/json_doc.rs` — the JSON documents the reports print, which
  `app/` writes out with `serde_json`; `rust_decimal` and `chrono` are called behind a few trusted
  wrappers whose contracts are stated in their doc comments.
- One module per command family (`data_sources`, `market`, `market_output`,
  `fundamental`, `factor`, `backtest`, `monitor`, `execution`, `qmt_audit`,
  `qmt_live`, `audit_json`, `import`, `screener`, `account`, ...): argument
  checks, request planning and the exact text each report prints.
- `src/qmt_live.rs` — the live QMT order submission as a state machine: the
  caller performs each action and feeds back what happened; the step function
  keeps an invariant and only ever sends an order that passed every check.
- `app/` — the host side: the TOML overlay file, environment variables, TCP
  probes, directories, printing, and the loops that run the `execution`,
  `market` and `import market-manifest` commands (and a qmt_live submission)
  against the project's services, which are reached through traits.
- `tests/` — executable tests of the library.
