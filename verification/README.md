# data_analysis_with_rust_book

The census ingestion pipeline of the *Data Analysis in Rust* book, as a Verus library
and a thin program around it.

The pipeline downloads the ONS micro census teaching sample, expands it with synthetic
income and weight columns to about 60 million rows, loads it into Postgres (via `COPY`)
and MinIO (via a multipart upload), and reads it back from the store chosen on the
command line (`--load-from-postgres` or `--load-from-s3`).

## Layout

- `src/` — the verified library.
  - `cli.rs`: command-line configuration and the data paths derived from it.
  - `paths.rs`: path joining with `PathBuf::join` semantics on text.
  - `data/`: the queries and batched load plan for Postgres (`rdbms.rs`), bucket
    membership, the multipart upload plan and the bucket deletion plan (`blob.rs`), the
    column projection (`etl.rs`), the seeded synthetic columns (`synthesise.rs`), and the
    filter/income expressions with their meaning (`expr.rs`).
  - `pipeline/`: the type-state builder, the context and its builder, the run of the
    stages as a state machine (one file per stage under `stages/`), and what a run does
    when a previous one left everything in place (`rerun.rs`).
  - `setup.rs`: the connection settings, the census pipeline and context, and the plan of
    a full run.
- `app/` — the program: argument parsing, and the I/O (files, HTTP, Postgres, S3,
  polars) that the library's state machines ask for.
- `tests/` — tests of the library.

Besides each function's contract, the library proves laws over whole runs: a bulk load
sends every row once in 100,000-row batches, an upload cuts a file into 5 MiB parts, the
stages run once each in order and stop at the first failure, the builder keeps the last
value set, a bucket deletion removes every listed key before the bucket, and a second run
rebuilds nothing.
