//! Configuration logic of a small logging toolkit: how the minimum log
//! level and the output format are chosen from environment values, how the
//! source location of a record is rendered, and the input and digest of a
//! SHA-256 throughput benchmark.

pub mod decimal;
pub mod level;
pub mod config;
pub mod bench_payload;
