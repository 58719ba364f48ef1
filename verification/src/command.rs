//! A parsed command line: one of the six commands with its arguments.

use crate::error::WorkflowError;
use crate::plan::{Plan, PlanView};
use crate::policy::{authorization, authorize, Operation, ProofSystem};
use crate::workflow::{
    dump_lagrange, dump_lagrange_plan, export_keys, export_keys_plan, generate_verifier,
    generate_verifier_plan, planned, prove, prove_plan, setup, setup_plan, verify, verify_plan,
    DefaultCircuits, DumpLagrangeOpts, ExportKeysOpts, GenerateVerifierOpts, ProveOpts,
    SetupOpts, VerifyOpts,
};
use vstd::prelude::*;

verus! {

/// One invocation of the tool.
#[derive(Clone, Debug)]
pub enum Command {
    DumpLagrange(DumpLagrangeOpts),
    Prove(ProveOpts),
    Verify(VerifyOpts),
    Setup(SetupOpts),
    GenerateVerifier(GenerateVerifierOpts),
    ExportKeys(ExportKeysOpts),
}

/// The operation that `command` asks for.
pub open spec fn operation_of(command: Command) -> Operation {
    match command {
        Command::DumpLagrange(_) => Operation::DumpLagrange,
        Command::Prove(_) => Operation::Prove,
        Command::Verify(_) => Operation::Verify,
        Command::Setup(_) => Operation::Setup,
        Command::GenerateVerifier(_) => Operation::GenerateVerifier,
        Command::ExportKeys(_) => Operation::ExportKeys,
    }
}

/// The proof system that `command` was given.
pub open spec fn system_of(command: Command) -> ProofSystem {
    match command {
        Command::DumpLagrange(opts) => opts.proof_system,
        Command::Prove(opts) => opts.proof_system,
        Command::Verify(opts) => opts.proof_system,
        Command::Setup(opts) => opts.proof_system,
        Command::GenerateVerifier(opts) => opts.proof_system,
        Command::ExportKeys(opts) => opts.proof_system,
    }
}

/// `true` where the plan of `command` depends on which default circuit files
/// exist: the command reads a circuit and names none.
pub open spec fn looks_for_default_circuit(command: Command) -> bool {
    match command {
        Command::DumpLagrange(opts) => opts.circuit is None,
        Command::Prove(opts) => opts.circuit is None,
        Command::Verify(_) => false,
        Command::Setup(opts) => opts.circuit is None,
        Command::GenerateVerifier(_) => false,
        Command::ExportKeys(opts) => opts.circuit is None,
    }
}

/// The plan of `command`: that of the operation it asks for.
pub open spec fn command_plan(command: Command, present: DefaultCircuits) -> Result<
    PlanView,
    WorkflowError,
> {
    match command {
        Command::DumpLagrange(opts) => dump_lagrange_plan(opts, present),
        Command::Prove(opts) => prove_plan(opts, present),
        Command::Verify(opts) => verify_plan(opts),
        Command::Setup(opts) => setup_plan(opts, present),
        Command::GenerateVerifier(opts) => generate_verifier_plan(opts),
        Command::ExportKeys(opts) => export_keys_plan(opts, present),
    }
}

impl Command {
    /// The operation that the command asks for.
    pub fn operation(&self) -> (operation: Operation)
        ensures
            operation == operation_of(*self),
    {
        match self {
            Command::DumpLagrange(_) => Operation::DumpLagrange,
            Command::Prove(_) => Operation::Prove,
            Command::Verify(_) => Operation::Verify,
            Command::Setup(_) => Operation::Setup,
            Command::GenerateVerifier(_) => Operation::GenerateVerifier,
            Command::ExportKeys(_) => Operation::ExportKeys,
        }
    }

    /// The proof system that the command was given.
    pub fn proof_system(&self) -> (system: ProofSystem)
        ensures
            system == system_of(*self),
    {
        match self {
            Command::DumpLagrange(opts) => opts.proof_system,
            Command::Prove(opts) => opts.proof_system,
            Command::Verify(opts) => opts.proof_system,
            Command::Setup(opts) => opts.proof_system,
            Command::GenerateVerifier(opts) => opts.proof_system,
            Command::ExportKeys(opts) => opts.proof_system,
        }
    }

    /// Consults the policy table for the command, before anything is looked
    /// for or read: the auxiliary-wire offset where the proof system admits
    /// the operation, `UnsupportedCombination` where it does not.
    pub fn permit(&self) -> (answer: Result<usize, WorkflowError>)
        ensures
            answer == authorization(system_of(*self), operation_of(*self)),
    {
        authorize(self.proof_system(), self.operation())
    }

    /// Whether the plan of the command depends on which default circuit
    /// files exist. Where it does not, the caller need not look for them.
    pub fn needs_default_circuit(&self) -> (needed: bool)
        ensures
            needed == looks_for_default_circuit(*self),
    {
        match self {
            Command::DumpLagrange(opts) => opts.circuit.is_none(),
            Command::Prove(opts) => opts.circuit.is_none(),
            Command::Verify(_) => false,
            Command::Setup(opts) => opts.circuit.is_none(),
            Command::GenerateVerifier(_) => false,
            Command::ExportKeys(opts) => opts.circuit.is_none(),
        }
    }

    /// Plans the command.
    pub fn plan(self, present: DefaultCircuits) -> (outcome: Result<Plan, WorkflowError>)
        ensures
            planned(outcome) == command_plan(self, present),
    {
        match self {
            Command::DumpLagrange(opts) => dump_lagrange(opts, present),
            Command::Prove(opts) => prove(opts, present),
            Command::Verify(opts) => verify(opts),
            Command::Setup(opts) => setup(opts, present),
            Command::GenerateVerifier(opts) => generate_verifier(opts),
            Command::ExportKeys(opts) => export_keys(opts, present),
        }
    }
}

/// A command has a plan exactly where the policy admits its operation for
/// its proof system; where it does not, planning fails with the error that
/// `permit` gives, and no step exists that could read or write a file.
pub proof fn lemma_plan_exists_iff_admitted(command: Command, present: DefaultCircuits)
    ensures
        command_plan(command, present) is Ok <==> authorization(
            system_of(command),
            operation_of(command),
        ) is Ok,
        command_plan(command, present) matches Err(error) ==> authorization(
            system_of(command),
            operation_of(command),
        ) == Err::<usize, WorkflowError>(error),
        command_plan(command, present) matches Ok(plan) ==> {
            &&& plan.operation == operation_of(command)
            &&& plan.system == system_of(command)
            &&& authorization(system_of(command), operation_of(command)) == Ok::<
                usize,
                WorkflowError,
            >(plan.aux_offset)
        },
{
}

/// A command that names its circuit, or reads none, is planned the same
/// whatever default circuit files exist.
pub proof fn lemma_named_circuit_ignores_defaults(
    command: Command,
    first: DefaultCircuits,
    second: DefaultCircuits,
)
    requires
        !looks_for_default_circuit(command),
    ensures
        command_plan(command, first) == command_plan(command, second),
{
}

} // verus!
