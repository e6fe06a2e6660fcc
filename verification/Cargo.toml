[package]
name = "moray_bench"
version = "0.1.0"
edition = "2021"
publish = false

[dependencies]
failure = "0.1"
quickcheck = "0.8"
rand = "0.6"
resolve = "0.2"
serde_json = "1"
slog = "2"
slog-term = "2"
