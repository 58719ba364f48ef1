//! Which operation each proof system admits.

use crate::error::WorkflowError;
use vstd::prelude::*;

verus! {

/// The proof system a command runs with.
#[derive(Clone, Copy, Debug, PartialEq, Eq, Structural)]
pub enum ProofSystem {
    Groth16,
    Plonk,
}

/// The operations of the tool, one per subcommand.
#[derive(Clone, Copy, Debug, PartialEq, Eq, Structural)]
pub enum Operation {
    Setup,
    Prove,
    Verify,
    GenerateVerifier,
    ExportKeys,
    DumpLagrange,
}

/// The policy table: `true` where `system` admits `operation`.
pub open spec fn supports(system: ProofSystem, operation: Operation) -> bool {
    match operation {
        Operation::Setup => system == ProofSystem::Groth16,
        Operation::Prove => system == ProofSystem::Plonk,
        Operation::Verify => system == ProofSystem::Plonk,
        Operation::GenerateVerifier => system == ProofSystem::Groth16,
        Operation::ExportKeys => system == ProofSystem::Groth16,
        Operation::DumpLagrange => system == ProofSystem::Plonk,
    }
}

/// The offset that `system` applies to the indices of auxiliary wires.
pub open spec fn aux_offset_of(system: ProofSystem) -> usize {
    match system {
        ProofSystem::Groth16 => 0,
        ProofSystem::Plonk => 1,
    }
}

/// What `authorize` answers for a pair.
pub open spec fn authorization(system: ProofSystem, operation: Operation) -> Result<
    usize,
    WorkflowError,
> {
    if supports(system, operation) {
        Ok(aux_offset_of(system))
    } else {
        Err(WorkflowError::UnsupportedCombination { system, operation })
    }
}

impl ProofSystem {
    /// The wire-index offset of auxiliary wires under this proof system.
    pub fn aux_offset(&self) -> (offset: usize)
        ensures
            offset == aux_offset_of(*self),
    {
        match self {
            ProofSystem::Groth16 => 0,
            ProofSystem::Plonk => 1,
        }
    }

    /// Whether this proof system admits `operation`.
    pub fn supports(&self, operation: Operation) -> (admitted: bool)
        ensures
            admitted == supports(*self, operation),
    {
        match operation {
            Operation::Setup | Operation::GenerateVerifier | Operation::ExportKeys => {
                matches!(self, ProofSystem::Groth16)
            },
            Operation::Prove | Operation::Verify | Operation::DumpLagrange => {
                matches!(self, ProofSystem::Plonk)
            },
        }
    }
}

/// Consults the policy table once for a command: the auxiliary-wire offset
/// where the pair is admitted, `UnsupportedCombination` with the pair where
/// it is not.
pub fn authorize(system: ProofSystem, operation: Operation) -> (answer: Result<
    usize,
    WorkflowError,
>)
    ensures
        answer == authorization(system, operation),
{
    if system.supports(operation) {
        Ok(system.aux_offset())
    } else {
        Err(WorkflowError::UnsupportedCombination { system, operation })
    }
}

/// The policy table, pair by pair: parameters, verifier contract and key
/// export belong to Groth16 alone; proving, verifying and the lagrange dump
/// to Plonk alone.
pub proof fn lemma_policy_table()
    ensures
        supports(ProofSystem::Groth16, Operation::Setup),
        !supports(ProofSystem::Plonk, Operation::Setup),
        !supports(ProofSystem::Groth16, Operation::Prove),
        supports(ProofSystem::Plonk, Operation::Prove),
        !supports(ProofSystem::Groth16, Operation::Verify),
        supports(ProofSystem::Plonk, Operation::Verify),
        supports(ProofSystem::Groth16, Operation::GenerateVerifier),
        !supports(ProofSystem::Plonk, Operation::GenerateVerifier),
        supports(ProofSystem::Groth16, Operation::ExportKeys),
        !supports(ProofSystem::Plonk, Operation::ExportKeys),
        !supports(ProofSystem::Groth16, Operation::DumpLagrange),
        supports(ProofSystem::Plonk, Operation::DumpLagrange),
{
}

/// Every operation is admitted by exactly one of the two proof systems.
pub proof fn lemma_one_system_per_operation(operation: Operation)
    ensures
        supports(ProofSystem::Groth16, operation) != supports(ProofSystem::Plonk, operation),
{
}

/// The two proof systems place auxiliary wires at different offsets.
pub proof fn lemma_aux_offsets_differ()
    ensures
        aux_offset_of(ProofSystem::Groth16) != aux_offset_of(ProofSystem::Plonk),
{
}

/// `authorize` succeeds exactly on the admitted pairs, and its error names
/// the refused pair.
pub proof fn lemma_authorization_follows_policy(system: ProofSystem, operation: Operation)
    ensures
        authorization(system, operation) is Ok <==> supports(system, operation),
        authorization(system, operation) is Err ==> authorization(system, operation)
            == Err::<usize, WorkflowError>(
            WorkflowError::UnsupportedCombination { system, operation },
        ),
{
}

} // verus!
