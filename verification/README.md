# cargo-chrono

A Cargo build performance observer: it runs `cargo build`, turns Cargo's
machine-readable messages into typed build events, records each build in a
local SQLite database, compares recorded builds, classifies compile times
against each crate's history (mean ± 2σ), and shows a live dashboard.

The library under `src/` is verified with Verus; `app/` is the program
around it (command line, process supervision, SQLite, terminal).

## Layout

| Module | What it holds |
|---|---|
| `time`, `text`, `scan`, `json`, `isqrt`, `order` | durations in nanoseconds, text building and padding, word and suffix scanning, a JSON tree with lookups, integer square root, the stable descending order |
| `model` | identifiers, build events and their views, recorded builds, diffs |
| `parser` | the line-by-line state machine over Cargo's output, and the laws of the event stream |
| `persist` | what gets recorded for each event, rows to builds, baselines from SQL aggregates, the end of a run |
| `diff` | per-crate changes ordered by impact, the critical path, build comparison |
| `anomaly` | classification against `mean ± k·σ` with `k` in thousandths |
| `broker` | fan-out of events to bounded tokio channels |
| `tui`, `dashboard`, `render` | the dashboard's state, its event-loop decisions with a baseline cache, and every line of text it shows |
| `cli` | commands, profile inference, the `ls`/`diff` columns without fractions, the JSON shapes |
| `clock` | the monotonic clock |

Floating point stays out of the library: the anomaly threshold is a whole
number of thousandths of σ, CPU use is kept in tenths of a percent, and the
percentage of a change is handed out as a fraction.

## Running

`app/` builds the `cargo-chrono` binary:

```
cargo-chrono record [-- <cargo args>]
cargo-chrono watch  [-- <cargo args>]
cargo-chrono ls [--last N]
cargo-chrono diff <before> <after>
```

Data lives in `./.cargo-chrono/history.db`.
