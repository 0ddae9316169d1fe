//! PostgreSQL paused-sandbox registry.
//! CRUD and lease operations are safe on every replica through row locks and
//! generation/execution fencing. Reconcile and reclaim alone are singleton
//! tasks; heartbeat-derived renewal runs independently on each replica.
//! Restart-grace state is persisted so both singleton leaders observe it.

pub mod grace;
pub mod lease;
pub mod reads;
pub mod reclaim;
pub mod reconcile;
pub mod replica_renewal;
pub mod row;
pub mod schema;
pub mod sql;
pub mod sql_laws;
pub mod statement_laws;
pub mod statements;
pub mod table;
pub mod tasks;
pub mod writes;
