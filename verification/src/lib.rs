//! Client-side supervision and bridging logic for a local container runtime
//! daemon: a process-lifecycle supervisor, an RPC connection and operation
//! bridge, and the decision logic that ties background results back to
//! foreground state.

pub mod clock;
pub mod daemon;
pub mod daemon_manager;
pub mod logs;
pub mod models;
pub mod paths;
pub mod startup;
pub mod text;
