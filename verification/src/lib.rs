//! Core of a system throughput benchmark: a closed model of compute devices,
//! a reproducible dense-matmul workload, integer-exact flop accounting and
//! throughput arithmetic, a GPU backend-selection policy, and the aggregation
//! of per-device results and collaborator facts into one report.
//!
//! All quantities are integers: elapsed time is carried in nanoseconds and
//! rates in flops per second (with hundredth-of-a-unit scaling for display),
//! so every computation here is exact and verified.

pub mod device;
pub mod sampler;
pub mod report;
pub mod selector;
pub mod textfmt;
pub mod workload;
