[package]
name = "logging_toolkit"
version = "0.1.0"
edition = "2021"
publish = false

[dependencies]
slog = "2"
slog-json = "2"
slog-term = "2"
lazy_static = "1"
sha2 = "0.10"
chrono = "0.4"
