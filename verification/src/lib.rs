//! A curl-like HTTP client library with a load-testing engine: request
//! building, workload planning, bounded-concurrency dispatch and latency
//! statistics.

pub mod cli;
pub mod error;
pub mod http;
pub mod json;
pub mod perf;
pub mod text;
pub mod time;
