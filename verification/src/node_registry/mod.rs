//! The registry of nodes: what they report, where sandboxes are placed and bound.

pub mod cpu_template;
pub mod cpu_template_json;
pub mod cpu_template_laws;
pub mod fleet;
pub mod grpc_service;
pub mod placement;
pub mod registry;
pub mod service_laws;
pub mod status;
pub mod strategy;
pub mod types;
pub mod warmup;
