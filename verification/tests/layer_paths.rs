use zk_prover::backend::FixedBackend;
use zk_prover::errors::{ProofFailureCause, ProverError};
use zk_prover::layer::{LayerId, ProverConfig};
use zk_prover::params::Parameters;
use zk_prover::prover::Prover;
use zk_prover::randomness::RandomnessSource;
use zk_prover::task::BlockTrace;

fn config() -> ProverConfig {
    ProverConfig {
        inner_degree: 20,
        chunk_degree: 25,
        super_degree: 26,
        sp1_degree: 24,
        evm_degree: 18,
        state_degree: 18,
    }
}

fn full_prover() -> Prover<FixedBackend> {
    let params = vec![
        Parameters { degree: 18, srs: vec![18] },
        Parameters { degree: 20, srs: vec![20] },
        Parameters { degree: 24, srs: vec![24] },
        Parameters { degree: 25, srs: vec![25] },
        Parameters { degree: 26, srs: vec![26] },
    ];
    Prover::from_params(FixedBackend::new(), config(), params)
}

fn traces() -> Vec<BlockTrace> {
    vec![
        BlockTrace { id: 1, data: vec![0xAA] },
        BlockTrace { id: 2, data: vec![0xBB] },
    ]
}

#[test]
fn inner_and_super_paths_produce_artifacts() {
    let prover = full_prover();
    let mut rng = RandomnessSource::from_seed([5u8; 16]);

    let inner = prover.gen_inner_proof(&mut rng, &traces()).expect("inner proof");
    assert!(!inner.proof.is_empty());
    assert_eq!(inner.vk.len(), 1);

    let sup = prover.gen_super_proof(&mut rng, &traces()).expect("super proof");
    assert!(!sup.proof.is_empty());
    // distinct layers run under distinct keys
    assert_ne!(inner.vk, sup.vk);
}

#[test]
fn sp1_path_produces_an_artifact() {
    let prover = full_prover();
    let mut rng = RandomnessSource::from_seed([6u8; 16]);
    let snark = prover.gen_sp1_snark(&mut rng, &traces()).expect("sp1 snark");
    assert!(!snark.proof.is_empty());
}

#[test]
fn inner_proof_rejects_empty_input() {
    let prover = full_prover();
    let mut rng = RandomnessSource::from_seed([5u8; 16]);
    let r = prover.gen_inner_proof(&mut rng, &Vec::new());
    assert_eq!(
        r.unwrap_err(),
        ProverError::ProofGeneration(LayerId::Inner, ProofFailureCause::EmptyTask)
    );
}

#[test]
fn evm_and_state_transcripts_are_reproducible_and_distinct() {
    let prover = full_prover();
    let trace = BlockTrace { id: 9, data: vec![9, 9] };

    let mut r1 = RandomnessSource::from_seed([0xC0u8; 16]);
    let mut r2 = RandomnessSource::from_seed([0xC0u8; 16]);
    let evm1 = prover.create_evm_proof(&mut r1, &trace).expect("evm transcript");
    let evm2 = prover.create_evm_proof(&mut r2, &trace).expect("evm transcript");
    assert_eq!(evm1, evm2);

    let mut r3 = RandomnessSource::from_seed([0xC0u8; 16]);
    let state = prover.create_state_proof(&mut r3, &trace).expect("state transcript");
    // same blinding, different circuit keys: the transcripts differ
    assert_ne!(evm1, state);
}
