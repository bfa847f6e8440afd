# logging_toolkit

A verified core for configuring a `slog` root logger from the environment.

- `src/` (Verus): reading the minimum level and the output format from
  environment values (`config`), level numbering shared with `slog`
  (`level`), decimal numerals as the standard library reads them
  (`decimal`), and the payload and SHA-256 digest of a throughput benchmark
  (`bench_payload`).
- `app/`: reading the environment, building the JSON or terminal drains on
  stdout, the shared root logger, and the timed digest run.
- `tests/`: concrete cases for every public function and law.
