use zkflow::error::WorkflowError;
use zkflow::locator::CircuitFormat;
use zkflow::plan::{
    check_setup_size, load_r1cs, Artifact, Ending, Plan, Step, Task, SETUP_MAX_POW2,
    SETUP_MIN_POW2,
};
use zkflow::policy::{Operation, ProofSystem};
use zkflow::workflow::{
    dump_lagrange, export_keys, generate_verifier, prove, setup, verify, DefaultCircuits,
    DumpLagrangeOpts, ExportKeysOpts, GenerateVerifierOpts, ProveOpts, SetupOpts, VerifyOpts,
};

fn nothing_present() -> DefaultCircuits {
    DefaultCircuits { binary_exists: false, json_exists: false }
}

fn only_json_present() -> DefaultCircuits {
    DefaultCircuits { binary_exists: false, json_exists: true }
}

fn load(artifact: Artifact, path: &str) -> Step {
    Step::Load { artifact, path: path.to_string() }
}

fn store(artifact: Artifact, path: &str) -> Step {
    Step::Store { artifact, path: path.to_string() }
}

fn compute(task: Task) -> Step {
    Step::Compute { task }
}

fn binary_circuit(path: &str) -> Step {
    load(Artifact::Circuit { format: CircuitFormat::Binary }, path)
}

fn json_circuit(path: &str) -> Step {
    load(Artifact::Circuit { format: CircuitFormat::Json }, path)
}

fn prove_opts(system: ProofSystem, lagrange: Option<&str>, size_pow2: Option<u32>) -> ProveOpts {
    ProveOpts {
        srs_monomial_form: "srs.mono".to_string(),
        srs_lagrange_form: lagrange.map(|s| s.to_string()),
        size_pow2,
        circuit: None,
        witness: "witness.json".to_string(),
        proof_path: "proof.bin".to_string(),
        proof_system: system,
    }
}

fn unsupported(system: ProofSystem, operation: Operation) -> Result<Plan, WorkflowError> {
    Err(WorkflowError::UnsupportedCombination { system, operation })
}

#[test]
fn load_r1cs_tells_the_format_from_the_name() {
    assert_eq!(load_r1cs("a/b.json".to_string()), json_circuit("a/b.json"));
    assert_eq!(load_r1cs("a/b.r1cs".to_string()), binary_circuit("a/b.r1cs"));
    assert_eq!(load_r1cs("a/b.bin".to_string()), binary_circuit("a/b.bin"));
}

#[test]
fn setup_plan_for_groth16() {
    let opts = SetupOpts {
        params: "params.bin".to_string(),
        circuit: None,
        proof_system: ProofSystem::Groth16,
    };
    let plan = setup(opts, nothing_present()).unwrap();
    assert_eq!(
        plan,
        Plan {
            operation: Operation::Setup,
            system: ProofSystem::Groth16,
            aux_offset: 0,
            steps: vec![
                binary_circuit("circuit.r1cs"),
                compute(Task::SampleParameters),
                store(Artifact::Parameters, "params.bin"),
            ],
            ending: Ending::Complete,
        }
    );
}

#[test]
fn setup_reads_the_json_default_when_only_it_exists() {
    let opts = SetupOpts {
        params: "p.bin".to_string(),
        circuit: None,
        proof_system: ProofSystem::Groth16,
    };
    let plan = setup(opts, only_json_present()).unwrap();
    assert_eq!(plan.steps[0], json_circuit("circuit.json"));
}

#[test]
fn setup_is_refused_for_plonk() {
    let opts = SetupOpts {
        params: "params.bin".to_string(),
        circuit: Some("c.json".to_string()),
        proof_system: ProofSystem::Plonk,
    };
    assert_eq!(setup(opts, nothing_present()), unsupported(ProofSystem::Plonk, Operation::Setup));
}

#[test]
fn prove_plan_without_lagrange_form() {
    let plan = prove(prove_opts(ProofSystem::Plonk, None, None), nothing_present()).unwrap();
    assert_eq!(
        plan,
        Plan {
            operation: Operation::Prove,
            system: ProofSystem::Plonk,
            aux_offset: 1,
            steps: vec![
                binary_circuit("circuit.r1cs"),
                load(Artifact::Witness, "witness.json"),
                load(Artifact::MonomialSrs, "srs.mono"),
                compute(Task::PrepareProver),
                compute(Task::CreateProof),
                store(Artifact::BinaryProof, "proof.bin"),
            ],
            ending: Ending::Complete,
        }
    );
}

#[test]
fn prove_plan_with_lagrange_form() {
    let plan =
        prove(prove_opts(ProofSystem::Plonk, Some("srs.lagrange"), Some(22)), only_json_present())
            .unwrap();
    assert_eq!(
        plan.steps,
        vec![
            json_circuit("circuit.json"),
            load(Artifact::Witness, "witness.json"),
            load(Artifact::MonomialSrs, "srs.mono"),
            load(Artifact::LagrangeSrs, "srs.lagrange"),
            compute(Task::PrepareProver),
            compute(Task::CreateProof),
            store(Artifact::BinaryProof, "proof.bin"),
        ]
    );
    assert_eq!(plan.ending, Ending::Complete);
}

#[test]
fn prove_is_refused_for_groth16() {
    assert_eq!(
        prove(prove_opts(ProofSystem::Groth16, None, None), nothing_present()),
        unsupported(ProofSystem::Groth16, Operation::Prove)
    );
    assert_eq!(
        prove(prove_opts(ProofSystem::Groth16, None, Some(0)), nothing_present()),
        unsupported(ProofSystem::Groth16, Operation::Prove)
    );
}

#[test]
fn setup_size_bounds() {
    assert_eq!(SETUP_MIN_POW2, 20);
    assert_eq!(SETUP_MAX_POW2, 26);
    assert_eq!(check_setup_size(None), Ending::Complete);
    assert_eq!(check_setup_size(Some(SETUP_MIN_POW2)), Ending::Complete);
    assert_eq!(check_setup_size(Some(SETUP_MAX_POW2)), Ending::Complete);
    assert_eq!(check_setup_size(Some(23)), Ending::Complete);
    for size_pow2 in [0, SETUP_MIN_POW2 - 1, SETUP_MAX_POW2 + 1, u32::MAX] {
        assert_eq!(
            check_setup_size(Some(size_pow2)),
            Ending::Refuse { error: WorkflowError::RangeViolation { size_pow2 } }
        );
    }
}

#[test]
fn prove_with_a_size_at_the_bounds_reaches_the_engine() {
    for size_pow2 in [SETUP_MIN_POW2, SETUP_MAX_POW2] {
        let plan =
            prove(prove_opts(ProofSystem::Plonk, None, Some(size_pow2)), nothing_present())
                .unwrap();
        assert_eq!(plan.ending, Ending::Complete);
        assert_eq!(plan.steps.len(), 6);
        assert_eq!(plan.steps[5], store(Artifact::BinaryProof, "proof.bin"));
    }
}

#[test]
fn prove_with_a_size_just_outside_the_bounds_only_reads() {
    for size_pow2 in [SETUP_MIN_POW2 - 1, SETUP_MAX_POW2 + 1] {
        let plan = prove(
            prove_opts(ProofSystem::Plonk, Some("srs.lagrange"), Some(size_pow2)),
            nothing_present(),
        )
        .unwrap();
        assert_eq!(
            plan.steps,
            vec![
                binary_circuit("circuit.r1cs"),
                load(Artifact::Witness, "witness.json"),
                load(Artifact::MonomialSrs, "srs.mono"),
                load(Artifact::LagrangeSrs, "srs.lagrange"),
            ]
        );
        assert_eq!(
            plan.ending,
            Ending::Refuse { error: WorkflowError::RangeViolation { size_pow2 } }
        );
    }
}

#[test]
fn verify_plan_for_plonk() {
    let opts = VerifyOpts {
        proof_path: "proof.bin".to_string(),
        vk: "vk.bin".to_string(),
        proof_system: ProofSystem::Plonk,
    };
    assert_eq!(
        verify(opts).unwrap(),
        Plan {
            operation: Operation::Verify,
            system: ProofSystem::Plonk,
            aux_offset: 1,
            steps: vec![
                load(Artifact::VerificationKey, "vk.bin"),
                load(Artifact::BinaryProof, "proof.bin"),
                compute(Task::CheckProof),
            ],
            ending: Ending::Complete,
        }
    );
}

#[test]
fn verify_is_refused_for_groth16() {
    let opts = VerifyOpts {
        proof_path: "proof.json".to_string(),
        vk: "params.bin".to_string(),
        proof_system: ProofSystem::Groth16,
    };
    assert_eq!(verify(opts), unsupported(ProofSystem::Groth16, Operation::Verify));
}

#[test]
fn generate_verifier_plan_for_groth16() {
    let opts = GenerateVerifierOpts {
        params: "params.bin".to_string(),
        verifier: "verifier.sol".to_string(),
        proof_system: ProofSystem::Groth16,
    };
    assert_eq!(
        generate_verifier(opts).unwrap(),
        Plan {
            operation: Operation::GenerateVerifier,
            system: ProofSystem::Groth16,
            aux_offset: 0,
            steps: vec![
                load(Artifact::Parameters, "params.bin"),
                store(Artifact::VerifierContract, "verifier.sol"),
            ],
            ending: Ending::Complete,
        }
    );
}

#[test]
fn generate_verifier_is_refused_for_plonk() {
    let opts = GenerateVerifierOpts {
        params: "params.bin".to_string(),
        verifier: "verifier.sol".to_string(),
        proof_system: ProofSystem::Plonk,
    };
    assert_eq!(
        generate_verifier(opts),
        unsupported(ProofSystem::Plonk, Operation::GenerateVerifier)
    );
}

#[test]
fn export_keys_plan_for_groth16() {
    let opts = ExportKeysOpts {
        params: "params.bin".to_string(),
        circuit: Some("mul.json".to_string()),
        pk: "proving_key.json".to_string(),
        vk: "verification_key.json".to_string(),
        proof_system: ProofSystem::Groth16,
    };
    assert_eq!(
        export_keys(opts, DefaultCircuits { binary_exists: true, json_exists: true }).unwrap(),
        Plan {
            operation: Operation::ExportKeys,
            system: ProofSystem::Groth16,
            aux_offset: 0,
            steps: vec![
                load(Artifact::Parameters, "params.bin"),
                json_circuit("mul.json"),
                store(Artifact::ProvingKeyJson, "proving_key.json"),
                store(Artifact::VerificationKeyJson, "verification_key.json"),
            ],
            ending: Ending::Complete,
        }
    );
}

#[test]
fn export_keys_is_refused_for_plonk() {
    let opts = ExportKeysOpts {
        params: "params.bin".to_string(),
        circuit: None,
        pk: "pk.json".to_string(),
        vk: "vk.json".to_string(),
        proof_system: ProofSystem::Plonk,
    };
    assert_eq!(
        export_keys(opts, nothing_present()),
        unsupported(ProofSystem::Plonk, Operation::ExportKeys)
    );
}

#[test]
fn dump_lagrange_plan_for_plonk() {
    let opts = DumpLagrangeOpts {
        srs_monomial_form: "srs.mono".to_string(),
        srs_lagrange_form: "srs.lagrange".to_string(),
        circuit: None,
        witness: "witness.json".to_string(),
        proof_system: ProofSystem::Plonk,
    };
    assert_eq!(
        dump_lagrange(opts, DefaultCircuits { binary_exists: true, json_exists: false }).unwrap(),
        Plan {
            operation: Operation::DumpLagrange,
            system: ProofSystem::Plonk,
            aux_offset: 1,
            steps: vec![
                binary_circuit("circuit.r1cs"),
                load(Artifact::Witness, "witness.json"),
                load(Artifact::MonomialSrs, "srs.mono"),
                compute(Task::PrepareProver),
                compute(Task::DeriveLagrangeSrs),
                store(Artifact::LagrangeSrs, "srs.lagrange"),
            ],
            ending: Ending::Complete,
        }
    );
}

#[test]
fn dump_lagrange_is_refused_for_groth16() {
    let opts = DumpLagrangeOpts {
        srs_monomial_form: "srs.mono".to_string(),
        srs_lagrange_form: "srs.lagrange".to_string(),
        circuit: None,
        witness: "witness.json".to_string(),
        proof_system: ProofSystem::Groth16,
    };
    assert_eq!(
        dump_lagrange(opts, nothing_present()),
        unsupported(ProofSystem::Groth16, Operation::DumpLagrange)
    );
}

#[test]
fn nothing_is_read_or_computed_after_a_store() {
    let plans = vec![
        setup(
            SetupOpts {
                params: "p".to_string(),
                circuit: None,
                proof_system: ProofSystem::Groth16,
            },
            nothing_present(),
        )
        .unwrap(),
        prove(prove_opts(ProofSystem::Plonk, Some("l"), Some(21)), nothing_present()).unwrap(),
        export_keys(
            ExportKeysOpts {
                params: "p".to_string(),
                circuit: None,
                pk: "pk".to_string(),
                vk: "vk".to_string(),
                proof_system: ProofSystem::Groth16,
            },
            nothing_present(),
        )
        .unwrap(),
    ];
    for plan in plans {
        let first_store = plan
            .steps
            .iter()
            .position(|step| matches!(step, Step::Store { .. }))
            .unwrap();
        assert!(plan.steps[first_store..].iter().all(|step| matches!(step, Step::Store { .. })));
    }
}

#[test]
fn naming_a_lagrange_form_only_adds_its_load() {
    for size_pow2 in [None, Some(20), Some(27)] {
        let without =
            prove(prove_opts(ProofSystem::Plonk, None, size_pow2), nothing_present()).unwrap();
        let with = prove(prove_opts(ProofSystem::Plonk, Some("srs.lagrange"), size_pow2), nothing_present())
            .unwrap();
        let mut expected = without.steps.clone();
        expected.insert(3, load(Artifact::LagrangeSrs, "srs.lagrange"));
        assert_eq!(with.steps, expected);
        assert_eq!(with.ending, without.ending);
    }
}

#[test]
fn inputs_are_never_written() {
    let plans = vec![
        setup(
            SetupOpts {
                params: "p".to_string(),
                circuit: None,
                proof_system: ProofSystem::Groth16,
            },
            nothing_present(),
        )
        .unwrap(),
        prove(prove_opts(ProofSystem::Plonk, Some("l"), None), nothing_present()).unwrap(),
        verify(VerifyOpts {
            proof_path: "proof.bin".to_string(),
            vk: "vk.bin".to_string(),
            proof_system: ProofSystem::Plonk,
        })
        .unwrap(),
        generate_verifier(GenerateVerifierOpts {
            params: "p".to_string(),
            verifier: "v.sol".to_string(),
            proof_system: ProofSystem::Groth16,
        })
        .unwrap(),
        export_keys(
            ExportKeysOpts {
                params: "p".to_string(),
                circuit: None,
                pk: "pk".to_string(),
                vk: "vk".to_string(),
                proof_system: ProofSystem::Groth16,
            },
            nothing_present(),
        )
        .unwrap(),
        dump_lagrange(
            DumpLagrangeOpts {
                srs_monomial_form: "m".to_string(),
                srs_lagrange_form: "l".to_string(),
                circuit: None,
                witness: "w".to_string(),
                proof_system: ProofSystem::Plonk,
            },
            nothing_present(),
        )
        .unwrap(),
    ];
    for plan in plans {
        for step in &plan.steps {
            if let Step::Store { artifact, .. } = step {
                assert!(!matches!(
                    artifact,
                    Artifact::Circuit { .. }
                        | Artifact::Witness
                        | Artifact::MonomialSrs
                        | Artifact::VerificationKey
                ));
            }
        }
    }
}

#[test]
fn a_stored_proof_is_the_one_that_verifying_loads() {
    let proving =
        prove(prove_opts(ProofSystem::Plonk, None, None), nothing_present()).unwrap();
    let verifying = verify(VerifyOpts {
        proof_path: "proof.bin".to_string(),
        vk: "vk.bin".to_string(),
        proof_system: ProofSystem::Plonk,
    })
    .unwrap();
    assert_eq!(proving.steps.last(), Some(&store(Artifact::BinaryProof, "proof.bin")));
    assert_eq!(verifying.steps[1], load(Artifact::BinaryProof, "proof.bin"));
}
