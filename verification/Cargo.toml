[package]
name = "data_analysis_with_rust_book"
version = "0.1.0"
edition = "2021"
publish = false

[dependencies]
anyhow = "1"
clap = { version = "4", features = ["derive"] }
polars = { version = "0.52", default-features = false, features = ["lazy", "csv", "parquet", "is_in"] }
rand = "0.9"
rand_chacha = "0.9"
sqlx = { version = "0.8", default-features = false, features = ["postgres", "runtime-tokio"] }
tokio = { version = "1", features = ["full"] }
tracing = "0.1"
tracing-subscriber = { version = "0.3", features = ["env-filter"] }
