//! The steps of a workflow and the plan that orders them.

use crate::error::WorkflowError;
use crate::locator::{circuit_format, format_of, CircuitFormat};
use crate::policy::{Operation, ProofSystem};
use vstd::prelude::*;

verus! {

/// The smallest supported size of a universal setup, as a power of two.
pub const SETUP_MIN_POW2: u32 = 20;

/// The largest supported size of a universal setup, as a power of two.
pub const SETUP_MAX_POW2: u32 = 26;

/// What a step reads or writes.
#[derive(Clone, Copy, Debug, PartialEq, Eq, Structural)]
pub enum Artifact {
    /// A constraint system, in the given encoding. Read from the binary
    /// encoding it comes with a table that renumbers wires, which is dropped.
    Circuit { format: CircuitFormat },
    /// An assignment to the wires of a circuit, as JSON.
    Witness,
    /// The universal reference string in monomial form.
    MonomialSrs,
    /// The reference string in lagrange form, derived for one circuit size.
    LagrangeSrs,
    /// The setup parameters bound to one circuit.
    Parameters,
    /// A proof as a self-contained binary file.
    BinaryProof,
    /// The verification key that belongs to a binary proof.
    VerificationKey,
    /// The source of a verifier contract.
    VerifierContract,
    /// The proving key in the interoperable JSON shape.
    ProvingKeyJson,
    /// The verification key in the interoperable JSON shape.
    VerificationKeyJson,
}

/// What the proving engine is asked to compute.
#[derive(Clone, Copy, Debug, PartialEq, Eq, Structural)]
pub enum Task {
    /// Sample a random reference string bound to the loaded circuit.
    SampleParameters,
    /// Bind the loaded circuit to the loaded reference strings; where no
    /// lagrange form was loaded, it is derived from the monomial form.
    PrepareProver,
    /// Hand out the lagrange form that the prepared prover holds.
    DeriveLagrangeSrs,
    /// Produce a proof for the loaded circuit and witness.
    CreateProof,
    /// Check the loaded proof against the loaded verification key; the
    /// engine answers valid or invalid.
    CheckProof,
}

/// One step of a workflow.
#[derive(Clone, Debug, PartialEq, Eq)]
pub enum Step {
    /// Read `artifact` from the file `path`.
    Load { artifact: Artifact, path: String },
    /// Have the engine carry out `task` on what has been loaded and computed.
    Compute { task: Task },
    /// Write `artifact` to the file `path`.
    Store { artifact: Artifact, path: String },
}

/// A step with its file name as a sequence of characters.
pub enum StepView {
    Load { artifact: Artifact, path: Seq<char> },
    Compute { task: Task },
    Store { artifact: Artifact, path: Seq<char> },
}

impl View for Step {
    type V = StepView;

    open spec fn view(&self) -> StepView {
        match *self {
            Step::Load { artifact, path } => StepView::Load { artifact, path: path@ },
            Step::Compute { task } => StepView::Compute { task },
            Step::Store { artifact, path } => StepView::Store { artifact, path: path@ },
        }
    }
}

/// How a plan ends once its last step has succeeded.
#[derive(Clone, Copy, Debug, PartialEq, Eq, Structural)]
pub enum Ending {
    /// Every artifact has been written: the workflow is complete.
    Complete,
    /// The workflow stops with `error` and goes no further.
    Refuse { error: WorkflowError },
}

/// The steps of one command, in the order in which they are carried out.
#[derive(Clone, Debug, PartialEq, Eq)]
pub struct Plan {
    pub operation: Operation,
    pub system: ProofSystem,
    /// The offset of auxiliary wires with which the circuit is built.
    pub aux_offset: usize,
    pub steps: Vec<Step>,
    pub ending: Ending,
}

/// A plan over the views of its steps.
pub struct PlanView {
    pub operation: Operation,
    pub system: ProofSystem,
    pub aux_offset: usize,
    pub steps: Seq<StepView>,
    pub ending: Ending,
}

/// The views of `steps`, position by position.
pub open spec fn steps_view(steps: Seq<Step>) -> Seq<StepView> {
    Seq::new(steps.len(), |i: int| steps[i]@)
}

impl View for Plan {
    type V = PlanView;

    open spec fn view(&self) -> PlanView {
        PlanView {
            operation: self.operation,
            system: self.system,
            aux_offset: self.aux_offset,
            steps: steps_view(self.steps@),
            ending: self.ending,
        }
    }
}

/// The step that reads the circuit file `path`, in the format its name tells.
pub open spec fn load_circuit(path: Seq<char>) -> StepView {
    StepView::Load { artifact: Artifact::Circuit { format: format_of(path) }, path }
}

/// The step that reads `artifact` from `path`.
pub open spec fn load(artifact: Artifact, path: Seq<char>) -> StepView {
    StepView::Load { artifact, path }
}

/// The step that writes `artifact` to `path`.
pub open spec fn store(artifact: Artifact, path: Seq<char>) -> StepView {
    StepView::Store { artifact, path }
}

/// The step that has the engine carry out `task`.
pub open spec fn compute(task: Task) -> StepView {
    StepView::Compute { task }
}

/// `true` for what a command produces; circuit, witness, the monomial form
/// and a binary verification key are only ever inputs.
pub open spec fn is_derived(artifact: Artifact) -> bool {
    match artifact {
        Artifact::Circuit { .. } => false,
        Artifact::Witness => false,
        Artifact::MonomialSrs => false,
        Artifact::VerificationKey => false,
        Artifact::LagrangeSrs => true,
        Artifact::Parameters => true,
        Artifact::BinaryProof => true,
        Artifact::VerifierContract => true,
        Artifact::ProvingKeyJson => true,
        Artifact::VerificationKeyJson => true,
    }
}

/// `true` where a setup size is within the supported inclusive bound; a
/// command without a size is.
pub open spec fn size_in_range(size_pow2: Option<u32>) -> bool {
    match size_pow2 {
        Some(n) => SETUP_MIN_POW2 <= n && n <= SETUP_MAX_POW2,
        None => true,
    }
}

/// How a plan ends that was made for the setup size `size_pow2`.
pub open spec fn ending_for_size(size_pow2: Option<u32>) -> Ending {
    match size_pow2 {
        Some(n) => if SETUP_MIN_POW2 <= n && n <= SETUP_MAX_POW2 {
            Ending::Complete
        } else {
            Ending::Refuse { error: WorkflowError::RangeViolation { size_pow2: n } }
        },
        None => Ending::Complete,
    }
}

/// Checks a setup size against the supported inclusive bound
/// `SETUP_MIN_POW2..=SETUP_MAX_POW2`.
pub fn check_setup_size(size_pow2: Option<u32>) -> (ending: Ending)
    ensures
        ending == ending_for_size(size_pow2),
        ending == Ending::Complete <==> size_in_range(size_pow2),
{
    match size_pow2 {
        Some(n) => {
            if SETUP_MIN_POW2 <= n && n <= SETUP_MAX_POW2 {
                Ending::Complete
            } else {
                Ending::Refuse { error: WorkflowError::RangeViolation { size_pow2: n } }
            }
        },
        None => Ending::Complete,
    }
}

/// The step that loads the circuit file `filename`: as JSON where the name
/// ends in `json`, else from the binary encoding.
pub fn load_r1cs(filename: String) -> (step: Step)
    ensures
        step@ == load_circuit(filename@),
{
    let format = circuit_format(filename.as_str());
    Step::Load { artifact: Artifact::Circuit { format }, path: filename }
}

impl Step {
    /// Whether the step asks the engine to check a proof.
    pub fn is_proof_check(&self) -> (check: bool)
        ensures
            check == (self@ == compute(Task::CheckProof)),
    {
        match self {
            Step::Compute { task } => matches!(task, Task::CheckProof),
            _ => false,
        }
    }
}

} // verus!
