//! Write-throughput benchmark for SQLite table layouts: workload generation,
//! batch planning, the insertion strategies and the run's state machine.

pub mod batches;
pub mod config;
pub mod connection;
pub mod decimal;
pub mod driver;
pub mod errors;
pub mod statement;
pub mod strategy;
pub mod workload;
