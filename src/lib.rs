//! A micro-benchmarking harness: warm up an operation, time it in batches,
//! and reduce the per-batch durations to exact statistics.
pub mod bencher;
pub mod clock;
pub mod config;
pub mod stats;

pub use bencher::Bencher;
pub use config::BencherConfig;
