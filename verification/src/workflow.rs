//! The six commands, each as the plan of what it loads, computes and stores.
//!
//! Every command consults the policy table first and yields no plan for a
//! proof system that does not admit it. A caller that must not even look for
//! the default circuit files in that case asks `Command::permit` before it
//! fills in `DefaultCircuits`.

use crate::error::WorkflowError;
use crate::locator::{resolve_circuit_file, resolved_circuit_file};
use crate::plan::{
    check_setup_size, compute, ending_for_size, is_derived, load, load_circuit, load_r1cs,
    size_in_range, store, Artifact, Ending, Plan, PlanView, Step, StepView, Task,
    SETUP_MAX_POW2, SETUP_MIN_POW2,
};
use crate::policy::{authorize, aux_offset_of, supports, Operation, ProofSystem};
use crate::runner::{halt, issue, lemma_run_in_order, run, Directive, Event, Progress};
use vstd::prelude::*;

verus! {

/// Which of the two default circuit files are present.
#[derive(Clone, Copy, Debug, PartialEq, Eq, Structural)]
pub struct DefaultCircuits {
    pub binary_exists: bool,
    pub json_exists: bool,
}

/// The arguments of `setup`.
#[derive(Clone, Debug)]
pub struct SetupOpts {
    /// Where the setup parameters are written.
    pub params: String,
    /// The circuit file, where one is named.
    pub circuit: Option<String>,
    pub proof_system: ProofSystem,
}

/// The arguments of `prove`.
#[derive(Clone, Debug)]
pub struct ProveOpts {
    /// The universal reference string in monomial form.
    pub srs_monomial_form: String,
    /// The reference string in lagrange form, where one was dumped before.
    pub srs_lagrange_form: Option<String>,
    /// The size of the universal setup as a power of two, where one is given.
    pub size_pow2: Option<u32>,
    /// The circuit file, where one is named.
    pub circuit: Option<String>,
    pub witness: String,
    /// Where the proof is written.
    pub proof_path: String,
    pub proof_system: ProofSystem,
}

/// The arguments of `verify`.
#[derive(Clone, Debug)]
pub struct VerifyOpts {
    pub proof_path: String,
    pub vk: String,
    pub proof_system: ProofSystem,
}

/// The arguments of `generate_verifier`.
#[derive(Clone, Debug)]
pub struct GenerateVerifierOpts {
    pub params: String,
    /// Where the contract source is written.
    pub verifier: String,
    pub proof_system: ProofSystem,
}

/// The arguments of `export_keys`.
#[derive(Clone, Debug)]
pub struct ExportKeysOpts {
    pub params: String,
    /// The circuit file, where one is named.
    pub circuit: Option<String>,
    /// Where the proving key is written.
    pub pk: String,
    /// Where the verification key is written.
    pub vk: String,
    pub proof_system: ProofSystem,
}

/// The arguments of `dump_lagrange`.
#[derive(Clone, Debug)]
pub struct DumpLagrangeOpts {
    pub srs_monomial_form: String,
    /// Where the lagrange form is written.
    pub srs_lagrange_form: String,
    /// The circuit file, where one is named.
    pub circuit: Option<String>,
    pub witness: String,
    pub proof_system: ProofSystem,
}

/// The circuit file that a command reads.
pub open spec fn circuit_of(explicit: Option<String>, present: DefaultCircuits) -> Seq<char> {
    resolved_circuit_file(
        match explicit {
            Some(s) => Some(s@),
            None => None,
        },
        present.binary_exists,
        present.json_exists,
    )
}

/// The plan of `operation` under `system`: the given steps and ending where
/// the policy admits the pair, and `UnsupportedCombination` where it does not.
pub open spec fn granted(
    system: ProofSystem,
    operation: Operation,
    steps: Seq<StepView>,
    ending: Ending,
) -> Result<PlanView, WorkflowError> {
    if supports(system, operation) {
        Ok(PlanView { operation, system, aux_offset: aux_offset_of(system), steps, ending })
    } else {
        Err(WorkflowError::UnsupportedCombination { system, operation })
    }
}

/// A planning result over the view of its plan.
pub open spec fn planned(outcome: Result<Plan, WorkflowError>) -> Result<PlanView, WorkflowError> {
    match outcome {
        Ok(plan) => Ok(plan@),
        Err(error) => Err(error),
    }
}

/// Setup loads the circuit, samples parameters for it and stores them.
pub open spec fn setup_steps(opts: SetupOpts, present: DefaultCircuits) -> Seq<StepView> {
    seq![
        load_circuit(circuit_of(opts.circuit, present)),
        compute(Task::SampleParameters),
        store(Artifact::Parameters, opts.params@),
    ]
}

/// The plan of `setup`: its steps under Groth16, a refusal under Plonk.
pub open spec fn setup_plan(opts: SetupOpts, present: DefaultCircuits) -> Result<
    PlanView,
    WorkflowError,
> {
    granted(opts.proof_system, Operation::Setup, setup_steps(opts, present), Ending::Complete)
}

/// What proving reads: circuit, witness, the monomial form and, where one is
/// named, the lagrange form.
pub open spec fn prove_loads(opts: ProveOpts, present: DefaultCircuits) -> Seq<StepView> {
    let first = seq![
        load_circuit(circuit_of(opts.circuit, present)),
        load(Artifact::Witness, opts.witness@),
        load(Artifact::MonomialSrs, opts.srs_monomial_form@),
    ];
    match opts.srs_lagrange_form {
        Some(path) => first.push(load(Artifact::LagrangeSrs, path@)),
        None => first,
    }
}

/// Proving reads its inputs; with a setup size in range, or none, it then
/// prepares the prover, creates the proof and stores it. With a size out of
/// range nothing follows the loads.
pub open spec fn prove_steps(opts: ProveOpts, present: DefaultCircuits) -> Seq<StepView> {
    if size_in_range(opts.size_pow2) {
        prove_loads(opts, present) + seq![
            compute(Task::PrepareProver),
            compute(Task::CreateProof),
            store(Artifact::BinaryProof, opts.proof_path@),
        ]
    } else {
        prove_loads(opts, present)
    }
}

/// The plan of `prove`: its steps under Plonk, ending as the setup size
/// says; a refusal under Groth16.
pub open spec fn prove_plan(opts: ProveOpts, present: DefaultCircuits) -> Result<
    PlanView,
    WorkflowError,
> {
    granted(
        opts.proof_system,
        Operation::Prove,
        prove_steps(opts, present),
        ending_for_size(opts.size_pow2),
    )
}

/// Verifying loads the verification key and the proof and has the engine
/// check one against the other.
pub open spec fn verify_steps(opts: VerifyOpts) -> Seq<StepView> {
    seq![
        load(Artifact::VerificationKey, opts.vk@),
        load(Artifact::BinaryProof, opts.proof_path@),
        compute(Task::CheckProof),
    ]
}

/// The plan of `verify`: its steps under Plonk, a refusal under Groth16.
pub open spec fn verify_plan(opts: VerifyOpts) -> Result<PlanView, WorkflowError> {
    granted(opts.proof_system, Operation::Verify, verify_steps(opts), Ending::Complete)
}

/// The verifier contract is written from the loaded parameters.
pub open spec fn generate_verifier_steps(opts: GenerateVerifierOpts) -> Seq<StepView> {
    seq![
        load(Artifact::Parameters, opts.params@),
        store(Artifact::VerifierContract, opts.verifier@),
    ]
}

/// The plan of `generate_verifier`: its steps under Groth16, a refusal under
/// Plonk.
pub open spec fn generate_verifier_plan(opts: GenerateVerifierOpts) -> Result<
    PlanView,
    WorkflowError,
> {
    granted(
        opts.proof_system,
        Operation::GenerateVerifier,
        generate_verifier_steps(opts),
        Ending::Complete,
    )
}

/// Key export loads parameters and circuit and writes the proving key, then
/// the verification key.
pub open spec fn export_keys_steps(opts: ExportKeysOpts, present: DefaultCircuits) -> Seq<
    StepView,
> {
    seq![
        load(Artifact::Parameters, opts.params@),
        load_circuit(circuit_of(opts.circuit, present)),
        store(Artifact::ProvingKeyJson, opts.pk@),
        store(Artifact::VerificationKeyJson, opts.vk@),
    ]
}

/// The plan of `export_keys`: its steps under Groth16, a refusal under Plonk.
pub open spec fn export_keys_plan(opts: ExportKeysOpts, present: DefaultCircuits) -> Result<
    PlanView,
    WorkflowError,
> {
    granted(
        opts.proof_system,
        Operation::ExportKeys,
        export_keys_steps(opts, present),
        Ending::Complete,
    )
}

/// The lagrange dump loads circuit, witness and monomial form, prepares the
/// prover, derives the lagrange form and stores it.
pub open spec fn dump_lagrange_steps(opts: DumpLagrangeOpts, present: DefaultCircuits) -> Seq<
    StepView,
> {
    seq![
        load_circuit(circuit_of(opts.circuit, present)),
        load(Artifact::Witness, opts.witness@),
        load(Artifact::MonomialSrs, opts.srs_monomial_form@),
        compute(Task::PrepareProver),
        compute(Task::DeriveLagrangeSrs),
        store(Artifact::LagrangeSrs, opts.srs_lagrange_form@),
    ]
}

/// The plan of `dump_lagrange`: its steps under Plonk, a refusal under
/// Groth16.
pub open spec fn dump_lagrange_plan(opts: DumpLagrangeOpts, present: DefaultCircuits) -> Result<
    PlanView,
    WorkflowError,
> {
    granted(
        opts.proof_system,
        Operation::DumpLagrange,
        dump_lagrange_steps(opts, present),
        Ending::Complete,
    )
}

/// Plans the generation of setup parameters for a circuit.
pub fn setup(opts: SetupOpts, present: DefaultCircuits) -> (outcome: Result<Plan, WorkflowError>)
    ensures
        planned(outcome) == setup_plan(opts, present),
{
    let system = opts.proof_system;
    let aux_offset = match authorize(system, Operation::Setup) {
        Ok(offset) => offset,
        Err(error) => { return Err(error); },
    };
    let circuit = resolve_circuit_file(opts.circuit, present.binary_exists, present.json_exists);
    let mut steps: Vec<Step> = Vec::new();
    steps.push(load_r1cs(circuit));
    steps.push(Step::Compute { task: Task::SampleParameters });
    steps.push(Step::Store { artifact: Artifact::Parameters, path: opts.params });
    let plan = Plan { operation: Operation::Setup, system, aux_offset, steps, ending: Ending::Complete };
    assert(plan@.steps =~= setup_steps(opts, present));
    Ok(plan)
}

/// Plans the creation of a proof. A setup size outside
/// `SETUP_MIN_POW2..=SETUP_MAX_POW2` gives a plan that reads the inputs and
/// then stops with `RangeViolation`, before the engine is asked for anything.
pub fn prove(opts: ProveOpts, present: DefaultCircuits) -> (outcome: Result<Plan, WorkflowError>)
    ensures
        planned(outcome) == prove_plan(opts, present),
{
    let system = opts.proof_system;
    let aux_offset = match authorize(system, Operation::Prove) {
        Ok(offset) => offset,
        Err(error) => { return Err(error); },
    };
    let circuit = resolve_circuit_file(opts.circuit, present.binary_exists, present.json_exists);
    let mut steps: Vec<Step> = Vec::new();
    steps.push(load_r1cs(circuit));
    steps.push(Step::Load { artifact: Artifact::Witness, path: opts.witness });
    steps.push(Step::Load { artifact: Artifact::MonomialSrs, path: opts.srs_monomial_form });
    match opts.srs_lagrange_form {
        Some(path) => {
            steps.push(Step::Load { artifact: Artifact::LagrangeSrs, path });
        },
        None => {},
    }
    let ending = check_setup_size(opts.size_pow2);
    match ending {
        Ending::Complete => {
            steps.push(Step::Compute { task: Task::PrepareProver });
            steps.push(Step::Compute { task: Task::CreateProof });
            steps.push(Step::Store { artifact: Artifact::BinaryProof, path: opts.proof_path });
        },
        Ending::Refuse { .. } => {},
    }
    let plan = Plan { operation: Operation::Prove, system, aux_offset, steps, ending };
    assert(plan@.steps =~= prove_steps(opts, present));
    Ok(plan)
}

/// Plans the check of a proof against a verification key.
pub fn verify(opts: VerifyOpts) -> (outcome: Result<Plan, WorkflowError>)
    ensures
        planned(outcome) == verify_plan(opts),
{
    let system = opts.proof_system;
    let aux_offset = match authorize(system, Operation::Verify) {
        Ok(offset) => offset,
        Err(error) => { return Err(error); },
    };
    let mut steps: Vec<Step> = Vec::new();
    steps.push(Step::Load { artifact: Artifact::VerificationKey, path: opts.vk });
    steps.push(Step::Load { artifact: Artifact::BinaryProof, path: opts.proof_path });
    steps.push(Step::Compute { task: Task::CheckProof });
    let plan = Plan { operation: Operation::Verify, system, aux_offset, steps, ending: Ending::Complete };
    assert(plan@.steps =~= verify_steps(opts));
    Ok(plan)
}

/// Plans the writing of a verifier contract from setup parameters.
pub fn generate_verifier(opts: GenerateVerifierOpts) -> (outcome: Result<Plan, WorkflowError>)
    ensures
        planned(outcome) == generate_verifier_plan(opts),
{
    let system = opts.proof_system;
    let aux_offset = match authorize(system, Operation::GenerateVerifier) {
        Ok(offset) => offset,
        Err(error) => { return Err(error); },
    };
    let mut steps: Vec<Step> = Vec::new();
    steps.push(Step::Load { artifact: Artifact::Parameters, path: opts.params });
    steps.push(Step::Store { artifact: Artifact::VerifierContract, path: opts.verifier });
    let plan = Plan {
        operation: Operation::GenerateVerifier,
        system,
        aux_offset,
        steps,
        ending: Ending::Complete,
    };
    assert(plan@.steps =~= generate_verifier_steps(opts));
    Ok(plan)
}

/// Plans the export of a proving key and a verification key as JSON.
pub fn export_keys(opts: ExportKeysOpts, present: DefaultCircuits) -> (outcome: Result<
    Plan,
    WorkflowError,
>)
    ensures
        planned(outcome) == export_keys_plan(opts, present),
{
    let system = opts.proof_system;
    let aux_offset = match authorize(system, Operation::ExportKeys) {
        Ok(offset) => offset,
        Err(error) => { return Err(error); },
    };
    let circuit = resolve_circuit_file(opts.circuit, present.binary_exists, present.json_exists);
    let mut steps: Vec<Step> = Vec::new();
    steps.push(Step::Load { artifact: Artifact::Parameters, path: opts.params });
    steps.push(load_r1cs(circuit));
    steps.push(Step::Store { artifact: Artifact::ProvingKeyJson, path: opts.pk });
    steps.push(Step::Store { artifact: Artifact::VerificationKeyJson, path: opts.vk });
    let plan = Plan {
        operation: Operation::ExportKeys,
        system,
        aux_offset,
        steps,
        ending: Ending::Complete,
    };
    assert(plan@.steps =~= export_keys_steps(opts, present));
    Ok(plan)
}

/// Plans the derivation of a lagrange-form reference string from the
/// monomial form and a circuit.
pub fn dump_lagrange(opts: DumpLagrangeOpts, present: DefaultCircuits) -> (outcome: Result<
    Plan,
    WorkflowError,
>)
    ensures
        planned(outcome) == dump_lagrange_plan(opts, present),
{
    let system = opts.proof_system;
    let aux_offset = match authorize(system, Operation::DumpLagrange) {
        Ok(offset) => offset,
        Err(error) => { return Err(error); },
    };
    let circuit = resolve_circuit_file(opts.circuit, present.binary_exists, present.json_exists);
    let mut steps: Vec<Step> = Vec::new();
    steps.push(load_r1cs(circuit));
    steps.push(Step::Load { artifact: Artifact::Witness, path: opts.witness });
    steps.push(Step::Load { artifact: Artifact::MonomialSrs, path: opts.srs_monomial_form });
    steps.push(Step::Compute { task: Task::PrepareProver });
    steps.push(Step::Compute { task: Task::DeriveLagrangeSrs });
    steps.push(Step::Store { artifact: Artifact::LagrangeSrs, path: opts.srs_lagrange_form });
    let plan = Plan {
        operation: Operation::DumpLagrange,
        system,
        aux_offset,
        steps,
        ending: Ending::Complete,
    };
    assert(plan@.steps =~= dump_lagrange_steps(opts, present));
    Ok(plan)
}

/// `true` where nothing is read or computed once something has been written.
pub open spec fn stores_come_last(steps: Seq<StepView>) -> bool {
    forall|i: int, j: int|
        0 <= i < j < steps.len() && #[trigger] steps[i] is Store ==> #[trigger] steps[j] is Store
}

/// `true` where only derived artifacts are written.
pub open spec fn stores_only_derived(steps: Seq<StepView>) -> bool {
    forall|i: int|
        0 <= i < steps.len() ==> (#[trigger] steps[i] matches StepView::Store { artifact, .. }
            ==> is_derived(artifact))
}

/// `true` where every step reads a file.
pub open spec fn only_loads(steps: Seq<StepView>) -> bool {
    forall|i: int| 0 <= i < steps.len() ==> #[trigger] steps[i] is Load
}

/// A command has a plan exactly where the policy admits it for the proof
/// system; where it does not, the error names the pair, and there is no step
/// to carry out.
pub proof fn lemma_policy_guards_plan(
    system: ProofSystem,
    operation: Operation,
    steps: Seq<StepView>,
    ending: Ending,
)
    ensures
        granted(system, operation, steps, ending) is Ok <==> supports(system, operation),
        !supports(system, operation) ==> granted(system, operation, steps, ending) == Err::<
            PlanView,
            WorkflowError,
        >(WorkflowError::UnsupportedCombination { system, operation }),
        supports(system, operation) ==> granted(system, operation, steps, ending) == Ok::<
            PlanView,
            WorkflowError,
        >(PlanView { operation, system, aux_offset: aux_offset_of(system), steps, ending }),
{
}

/// The proof system of each command: setup, verifier contract and key
/// export are planned for Groth16 alone; proving, verifying and the lagrange
/// dump for Plonk alone.
pub proof fn lemma_commands_by_system(
    setup_opts: SetupOpts,
    prove_opts: ProveOpts,
    verify_opts: VerifyOpts,
    generate_verifier_opts: GenerateVerifierOpts,
    export_keys_opts: ExportKeysOpts,
    dump_lagrange_opts: DumpLagrangeOpts,
    present: DefaultCircuits,
)
    ensures
        setup_plan(setup_opts, present) is Ok <==> setup_opts.proof_system
            == ProofSystem::Groth16,
        prove_plan(prove_opts, present) is Ok <==> prove_opts.proof_system == ProofSystem::Plonk,
        verify_plan(verify_opts) is Ok <==> verify_opts.proof_system == ProofSystem::Plonk,
        generate_verifier_plan(generate_verifier_opts) is Ok
            <==> generate_verifier_opts.proof_system == ProofSystem::Groth16,
        export_keys_plan(export_keys_opts, present) is Ok <==> export_keys_opts.proof_system
            == ProofSystem::Groth16,
        dump_lagrange_plan(dump_lagrange_opts, present) is Ok
            <==> dump_lagrange_opts.proof_system == ProofSystem::Plonk,
{
}

/// A setup size outside the supported bound stops proving before the engine
/// is asked for anything and before anything is written: the plan only reads
/// its inputs, and the run ends in `RangeViolation` once they are read.
pub proof fn lemma_size_out_of_range_stops_before_engine(
    opts: ProveOpts,
    present: DefaultCircuits,
    size_pow2: u32,
)
    requires
        opts.proof_system == ProofSystem::Plonk,
        opts.size_pow2 == Some(size_pow2),
        size_pow2 < SETUP_MIN_POW2 || size_pow2 > SETUP_MAX_POW2,
    ensures
        prove_plan(opts, present) is Ok,
        only_loads(prove_plan(opts, present)->Ok_0.steps),
        prove_plan(opts, present)->Ok_0.ending == (Ending::Refuse {
            error: WorkflowError::RangeViolation { size_pow2 },
        }),
        issue(
            prove_plan(opts, present)->Ok_0,
            prove_plan(opts, present)->Ok_0.steps.len() as int,
        ) == halt(WorkflowError::RangeViolation { size_pow2 }),
{
}

/// However a run of proving with a setup size outside the bound goes, and
/// whatever is reported to it, every step it hands out reads a file: the
/// engine is never asked and no proof is written.
pub proof fn lemma_rejected_size_never_reaches_engine(
    opts: ProveOpts,
    present: DefaultCircuits,
    size_pow2: u32,
    progress: Progress,
    events: Seq<Event>,
    k: int,
)
    requires
        opts.proof_system == ProofSystem::Plonk,
        opts.size_pow2 == Some(size_pow2),
        size_pow2 < SETUP_MIN_POW2 || size_pow2 > SETUP_MAX_POW2,
        0 <= k < events.len(),
    ensures
        prove_plan(opts, present) is Ok,
        run(prove_plan(opts, present)->Ok_0, progress, events)[k] matches Directive::Perform {
            step,
        } ==> step < prove_steps(opts, present).len() && prove_steps(opts, present)[step as int]
            is Load,
{
    let plan = prove_plan(opts, present)->Ok_0;
    lemma_run_in_order(plan, progress, events, k);
    lemma_size_out_of_range_stops_before_engine(opts, present, size_pow2);
}

/// With a setup size in the bound, or none, proving ends by storing the
/// proof, and the plan completes.
pub proof fn lemma_size_in_range_stores_proof(opts: ProveOpts, present: DefaultCircuits)
    requires
        opts.proof_system == ProofSystem::Plonk,
        size_in_range(opts.size_pow2),
    ensures
        prove_plan(opts, present) is Ok,
        prove_plan(opts, present)->Ok_0.ending == Ending::Complete,
        prove_plan(opts, present)->Ok_0.steps.last() == store(
            Artifact::BinaryProof,
            opts.proof_path@,
        ),
{
}

/// In the plan of every command, nothing is read or computed after the first
/// artifact has been written.
pub proof fn lemma_stores_come_last(
    setup_opts: SetupOpts,
    prove_opts: ProveOpts,
    verify_opts: VerifyOpts,
    generate_verifier_opts: GenerateVerifierOpts,
    export_keys_opts: ExportKeysOpts,
    dump_lagrange_opts: DumpLagrangeOpts,
    present: DefaultCircuits,
)
    ensures
        stores_come_last(setup_steps(setup_opts, present)),
        stores_come_last(prove_steps(prove_opts, present)),
        stores_come_last(verify_steps(verify_opts)),
        stores_come_last(generate_verifier_steps(generate_verifier_opts)),
        stores_come_last(export_keys_steps(export_keys_opts, present)),
        stores_come_last(dump_lagrange_steps(dump_lagrange_opts, present)),
{
}


/// Naming a lagrange form changes nothing in proving but that it is read,
/// after the monomial form: the engine is asked for the same and the proof
/// is stored in the same place as when the form is derived on the fly.
pub proof fn lemma_lagrange_form_only_adds_a_load(
    with: ProveOpts,
    without: ProveOpts,
    present: DefaultCircuits,
)
    requires
        with.srs_lagrange_form is Some,
        without.srs_lagrange_form is None,
        with.srs_monomial_form == without.srs_monomial_form,
        with.size_pow2 == without.size_pow2,
        with.circuit == without.circuit,
        with.witness == without.witness,
        with.proof_path == without.proof_path,
        with.proof_system == without.proof_system,
    ensures
        prove_steps(with, present) == prove_steps(without, present).insert(
            3,
            load(Artifact::LagrangeSrs, with.srs_lagrange_form->Some_0@),
        ),
        prove_plan(with, present) is Ok <==> prove_plan(without, present) is Ok,
        prove_plan(with, present) is Ok ==> prove_plan(with, present)->Ok_0.ending == prove_plan(
            without,
            present,
        )->Ok_0.ending,
{
    assert(prove_steps(with, present) =~= prove_steps(without, present).insert(
        3,
        load(Artifact::LagrangeSrs, with.srs_lagrange_form->Some_0@),
    ));
}

/// What one command writes, the next reads as the same kind of artifact from
/// the same file: the parameters of a setup are those that key export and
/// the verifier contract load, the lagrange form of a dump is the one that
/// proving loads, and the proof that proving stores is the one that
/// verifying loads.
pub proof fn lemma_artifacts_are_read_as_written(
    setup_opts: SetupOpts,
    export_keys_opts: ExportKeysOpts,
    generate_verifier_opts: GenerateVerifierOpts,
    dump_lagrange_opts: DumpLagrangeOpts,
    prove_opts: ProveOpts,
    verify_opts: VerifyOpts,
    present: DefaultCircuits,
)
    requires
        size_in_range(prove_opts.size_pow2),
    ensures
        setup_steps(setup_opts, present).last() == store(
            Artifact::Parameters,
            setup_opts.params@,
        ),
        export_keys_steps(export_keys_opts, present).first() == load(
            Artifact::Parameters,
            export_keys_opts.params@,
        ),
        generate_verifier_steps(generate_verifier_opts).first() == load(
            Artifact::Parameters,
            generate_verifier_opts.params@,
        ),
        dump_lagrange_steps(dump_lagrange_opts, present).last() == store(
            Artifact::LagrangeSrs,
            dump_lagrange_opts.srs_lagrange_form@,
        ),
        prove_opts.srs_lagrange_form matches Some(path) ==> prove_steps(prove_opts, present)[3]
            == load(Artifact::LagrangeSrs, path@),
        prove_steps(prove_opts, present).last() == store(
            Artifact::BinaryProof,
            prove_opts.proof_path@,
        ),
        verify_steps(verify_opts)[1] == load(Artifact::BinaryProof, verify_opts.proof_path@),
{
}


/// No command writes a circuit, a witness or the monomial form of the
/// reference string: what a plan stores is derived from what it loaded.
pub proof fn lemma_inputs_are_never_written(
    setup_opts: SetupOpts,
    prove_opts: ProveOpts,
    verify_opts: VerifyOpts,
    generate_verifier_opts: GenerateVerifierOpts,
    export_keys_opts: ExportKeysOpts,
    dump_lagrange_opts: DumpLagrangeOpts,
    present: DefaultCircuits,
)
    ensures
        stores_only_derived(setup_steps(setup_opts, present)),
        stores_only_derived(prove_steps(prove_opts, present)),
        stores_only_derived(verify_steps(verify_opts)),
        stores_only_derived(generate_verifier_steps(generate_verifier_opts)),
        stores_only_derived(export_keys_steps(export_keys_opts, present)),
        stores_only_derived(dump_lagrange_steps(dump_lagrange_opts, present)),
{
}

} // verus!
