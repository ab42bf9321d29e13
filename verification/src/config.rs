//! Session configuration values and their native ABI tags.

use vstd::prelude::*;

verus! {

/// Optimization level the native runtime applies to the loaded graph.
#[derive(Clone, Copy, Debug, PartialEq, Eq, Structural)]
pub enum SessionGraphOptimizationLevel {
    /// Disable optimization.
    DisableAll,
    /// Basic optimization.
    Basic,
    /// Extended optimization.
    Extended,
    /// All available optimization.
    All,
}

/// The tag value the native ABI uses for each optimization level.
pub open spec fn spec_graph_optimization_level_to_raw(level: SessionGraphOptimizationLevel) -> u32 {
    match level {
        SessionGraphOptimizationLevel::DisableAll => 0,
        SessionGraphOptimizationLevel::Basic => 1,
        SessionGraphOptimizationLevel::Extended => 2,
        SessionGraphOptimizationLevel::All => 99,
    }
}

impl SessionGraphOptimizationLevel {
    /// The tag value passed across the native ABI for this level.
    pub fn to_raw(self) -> (raw: u32)
        ensures
            raw == spec_graph_optimization_level_to_raw(self),
    {
        match self {
            SessionGraphOptimizationLevel::DisableAll => 0,
            SessionGraphOptimizationLevel::Basic => 1,
            SessionGraphOptimizationLevel::Extended => 2,
            SessionGraphOptimizationLevel::All => 99,
        }
    }
}

/// Whether the native runtime executes the graph's operators sequentially
/// or in parallel.
#[derive(Clone, Copy, Debug, PartialEq, Eq, Structural)]
pub enum SessionExecutionMode {
    Sequential,
    Parallel,
}

/// The tag value the native ABI uses for each execution mode.
pub open spec fn spec_execution_mode_to_raw(mode: SessionExecutionMode) -> u32 {
    match mode {
        SessionExecutionMode::Sequential => 0,
        SessionExecutionMode::Parallel => 1,
    }
}

impl SessionExecutionMode {
    /// The tag value passed across the native ABI for this mode.
    pub fn to_raw(self) -> (raw: u32)
        ensures
            raw == spec_execution_mode_to_raw(self),
    {
        match self {
            SessionExecutionMode::Sequential => 0,
            SessionExecutionMode::Parallel => 1,
        }
    }
}

} // verus!
