//! The log lines that the services of an issue wrote, fetched from ClickHouse.

pub mod log_line;
pub mod retriever;
