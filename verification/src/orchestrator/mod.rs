//! Orchestration decisions of the deciding half: the paused-sandbox registry, and the routing
//! verdict that outlives the node a sandbox ran on.

pub mod paused_registry;
pub mod runtime_routing;
