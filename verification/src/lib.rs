//! A client library for the InfluxDB time-series database.
//!
//! The library builds query strings (read queries in the database's
//! SQL-like dialect, write queries in the line-protocol text format),
//! plans the HTTP requests that carry them, and classifies server
//! responses into success or typed failures.

pub mod client;
pub mod error;
pub mod integrations;
pub mod query;
pub mod text;
