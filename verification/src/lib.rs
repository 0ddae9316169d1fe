//! Node placement, node registry and paused-sandbox registry of the control plane.

pub mod ids;
pub mod node_client;
pub mod node_registry;
pub mod orchestrator;
pub mod text;
pub mod time;
