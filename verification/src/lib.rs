//! Bootstrap layer of a blockchain indexer: where streaming starts, and with
//! which settings.

pub mod configs;
pub mod guarantees;
pub mod lake;
pub mod log_filter;
pub mod resolver;
pub mod sources;
pub mod start_options;
