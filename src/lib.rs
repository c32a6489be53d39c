//! Data-access core for timestamped temperature readings kept in one
//! relational table: connection settings, the statements that each operation
//! runs inside one transaction, and how fetched rows become readings.

pub mod config;
pub mod error;
pub mod reading;
pub mod store;
pub mod lemmas;
