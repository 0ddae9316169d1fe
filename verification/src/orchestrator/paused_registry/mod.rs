//! Paused-sandbox registry with its PostgreSQL backend.

pub mod postgres;
pub mod types;
