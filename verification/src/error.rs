//! Why a workflow is refused or stopped.

use crate::policy::{Operation, ProofSystem};
use vstd::prelude::*;

verus! {

/// Why a workflow was refused or stopped.
#[derive(Clone, Copy, Debug, PartialEq, Eq, Structural)]
pub enum WorkflowError {
    /// The operation is not available for the proof system.
    UnsupportedCombination { system: ProofSystem, operation: Operation },
    /// The setup size lies outside the supported inclusive bound.
    RangeViolation { size_pow2: u32 },
    /// An input could not be read, or not in the expected format. `step` is
    /// the position of the load in the plan.
    InputUnavailable { step: usize },
    /// The proving engine failed on the step at position `step`.
    EngineFailure { step: usize },
    /// An artifact could not be written by the step at position `step`.
    OutputFailure { step: usize },
    /// The driver reported something that the run was not waiting for.
    UnexpectedEvent,
}

} // verus!
