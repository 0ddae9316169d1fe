//! Drives sandboxes on remote nodes.
//!
//! Pause captures remain pinned to the node holding their bytes unless publication
//! produces a cluster-portable snapshot.

pub mod factory;
pub mod native_placement;
pub mod placement;
