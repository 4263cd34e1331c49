//! The slice of the client configuration that the connection protocol reads.

use vstd::prelude::*;

verus! {

/// Settings for direct agent provisioning.
#[derive(Clone, Copy, Debug)]
pub struct AgentConfig {
    /// Upper bound, in seconds, on how long workload creation may take
    /// before the attempt is abandoned.
    pub startup_timeout: u64,
}

/// Read-only input of a connection attempt: whether the operator path is
/// permitted, and the deadline bounding direct provisioning.
#[derive(Clone, Copy, Debug)]
pub struct LayerConfig {
    /// Whether discovery of a managed operator service may be attempted.
    pub operator: bool,
    /// Settings for the direct provisioning fallback.
    pub agent: AgentConfig,
}

} // verus!
