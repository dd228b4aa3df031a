# noda-interview

Streams CSV or NDJSON records into an existing SQLite `metrics` table.

- `src/` is the verified library (Verus): record transformation and tag
  normalization (`transform`, `text`), the `metrics` schema check and batch
  insert accounting (`db`), the run's state machine (`pipeline`), row-level
  log events (`event_log`), input row contexts (`input`), the counters and
  their summary (`metrics`) and the run configuration (`lib.rs`, `cli`).
- `app/` is the command-line program: argument parsing, file reading with
  `csv` and `serde_json`, SQLite access with `rusqlite` and the JSONL event
  log.
- `tests/` exercises the library, SQLite included.

Numeric values travel through the library as IEEE-754 bit patterns
(`f64::to_bits`); the program converts at its edges.
