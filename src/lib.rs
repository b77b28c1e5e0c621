//! A small key-value store with time-based expiry, and the request/response
//! protocol that serves it over a connection.
//!
//! Time is measured in milliseconds on a monotonic clock chosen by the caller;
//! every operation that depends on time takes the current instant as `now`.
pub mod connection;
pub mod in_memory_db;
