use zk_prover::backend::FixedBackend;
use zk_prover::batch::BatchProof;
use zk_prover::errors::{ProofFailureCause, ProverError};
use zk_prover::keys::{KeyManager, KeyPair};
use zk_prover::layer::{LayerId, ProverConfig};
use zk_prover::params::{ParameterStore, Parameters};
use zk_prover::prover::Prover;
use zk_prover::randomness::RandomnessSource;
use zk_prover::task::{BlockTrace, ChunkProvingTask};

fn config() -> ProverConfig {
    ProverConfig {
        inner_degree: 20,
        chunk_degree: 25,
        super_degree: 26,
        sp1_degree: 24,
        evm_degree: 18,
        state_degree: 18,
    }
}

fn params_of(degree: u32) -> Parameters {
    Parameters { degree, srs: vec![degree as u8, 0x5E] }
}

fn chunk_prover() -> Prover<FixedBackend> {
    Prover::from_params(FixedBackend::new(), config(), vec![params_of(25)])
}

fn one_trace_task() -> ChunkProvingTask {
    ChunkProvingTask::new(vec![BlockTrace { id: 1, data: vec![1, 2, 3] }])
}

#[test]
fn empty_chunk_task_fails_fast() {
    let prover = chunk_prover();
    let task = ChunkProvingTask::new(Vec::new());
    let mut rng = RandomnessSource::from_seed([1u8; 16]);

    let r = prover.gen_chunk_proof(&mut rng, &task, None);
    assert_eq!(
        r.unwrap_err(),
        ProverError::ProofGeneration(LayerId::Chunk, ProofFailureCause::EmptyTask)
    );

    // the backend was never reached: no randomness was consumed
    let mut fresh = RandomnessSource::from_seed([1u8; 16]);
    assert_eq!(rng.draw(16), fresh.draw(16));
}

#[test]
fn chunk_proof_is_encodable_and_round_trips() {
    let prover = chunk_prover();
    let task = one_trace_task();
    let mut rng = RandomnessSource::from_seed([2u8; 16]);

    let artifact = prover.gen_chunk_proof(&mut rng, &task, None).expect("chunk proof");
    assert_eq!(artifact.instances.len(), 44 * 32);

    let proof_bytes = artifact.proof.clone();
    let instances = artifact.instances.clone();
    let batch = BatchProof::try_encode(artifact).expect("aggregation artifact must encode");
    let restored = batch.proof_to_verify().expect("batch layout must decode");
    assert_eq!(restored.proof, proof_bytes);
    assert_eq!(restored.instances, instances);
}

#[test]
fn identical_seeds_give_identical_proofs() {
    let prover = chunk_prover();
    let task = one_trace_task();

    let mut r1 = RandomnessSource::from_seed([7u8; 16]);
    let mut r2 = RandomnessSource::from_seed([7u8; 16]);
    let p1 = prover.gen_chunk_proof(&mut r1, &task, None).expect("chunk proof");
    let p2 = prover.gen_chunk_proof(&mut r2, &task, None).expect("chunk proof");
    assert_eq!(p1.proof, p2.proof);
    assert_eq!(p1.instances, p2.instances);
    assert_eq!(p1.vk, p2.vk);

    // a different seed changes the blinding, and with it the transcript
    let mut r3 = RandomnessSource::from_seed([8u8; 16]);
    let p3 = prover.gen_chunk_proof(&mut r3, &task, None).expect("chunk proof");
    assert_ne!(p1.proof, p3.proof);
}

#[test]
fn missing_parameters_is_a_setup_error() {
    let prover = Prover::new(FixedBackend::new(), config());
    let mut rng = RandomnessSource::from_seed([3u8; 16]);
    let traces = vec![BlockTrace { id: 4, data: vec![4] }];
    let r = prover.gen_inner_proof(&mut rng, &traces);
    assert_eq!(r.unwrap_err(), ProverError::ParamsIo);
}

#[test]
fn undersized_degree_is_a_keygen_error() {
    let mut cfg = config();
    cfg.inner_degree = 10;
    let prover = Prover::from_params(FixedBackend::new(), cfg, vec![params_of(10)]);
    let mut rng = RandomnessSource::from_seed([4u8; 16]);
    let traces = vec![BlockTrace { id: 4, data: vec![4] }];
    let r = prover.gen_inner_proof(&mut rng, &traces);
    assert_eq!(r.unwrap_err(), ProverError::Keygen(LayerId::Inner));
}

#[test]
fn key_generation_is_deterministic() {
    let backend = FixedBackend::new();
    let manager = KeyManager::new();
    let params = params_of(25);

    let k1 = manager.gen_key(&backend, LayerId::Chunk, &params).expect("keys");
    let k2 = manager.gen_key(&backend, LayerId::Chunk, &params).expect("keys");
    assert_eq!(k1.vk, k2.vk);
    assert_eq!(k1.pk, k2.pk);

    // a layer too wide for the degree is a fatal configuration error
    let shallow = params_of(3);
    let r = manager.gen_key(&backend, LayerId::Chunk, &shallow);
    assert_eq!(r.unwrap_err(), ProverError::Keygen(LayerId::Chunk));
}

#[test]
fn cached_key_is_semantically_inert() {
    let prover = chunk_prover();
    let task = one_trace_task();
    let params = params_of(25);
    let key = KeyManager::new().gen_key(&prover.backend, LayerId::Chunk, &params).expect("keys");

    let mut r1 = RandomnessSource::from_seed([9u8; 16]);
    let mut r2 = RandomnessSource::from_seed([9u8; 16]);
    let without = prover.gen_chunk_proof(&mut r1, &task, None).expect("chunk proof");
    let with = prover.gen_chunk_proof(&mut r2, &task, Some(&key)).expect("chunk proof");
    assert_eq!(without.proof, with.proof);
    assert_eq!(without.instances, with.instances);
    assert_eq!(without.vk, with.vk);
}

#[test]
fn parameter_caching_is_idempotent() {
    let mut store = ParameterStore::new();
    let mut backend = FixedBackend::new();

    let p1 = store.load_or_create(&mut backend, 20, None).expect("params");
    assert_eq!(backend.setups, 1);
    assert_eq!(p1.degree, 20);

    // the second call is served from the cache: no second generation
    let p2 = store.load_or_create(&mut backend, 20, None).expect("params");
    assert_eq!(backend.setups, 1);
    assert_eq!(p2.degree, p1.degree);
    assert_eq!(p2.srs, p1.srs);
}

#[test]
fn wrong_degree_on_disk_is_a_params_error() {
    let mut store = ParameterStore::new();
    let mut backend = FixedBackend::new();
    let r = store.load_or_create(&mut backend, 20, Some(params_of(21)));
    assert_eq!(r.unwrap_err(), ProverError::ParamsIo);
    assert_eq!(backend.setups, 0);
}

#[test]
fn key_serialization_round_trips() {
    let backend = FixedBackend::new();
    let key = KeyManager::new().gen_key(&backend, LayerId::Chunk, &params_of(25)).expect("keys");
    let bytes = key.to_bytes();
    let back = KeyPair::from_bytes(&bytes).expect("framed key must decode");
    assert_eq!(back.layer, key.layer);
    assert_eq!(back.degree, key.degree);
    assert_eq!(back.pk, key.pk);
    assert_eq!(back.vk, key.vk);

    // an unknown layer code is rejected
    let mut bad = bytes.clone();
    bad[0] = 0xFF;
    assert!(KeyPair::from_bytes(&bad).is_none());

    // a truncated proving key is rejected
    let short = bytes[..bytes.len() - key.vk.len() - 1].to_vec();
    assert!(KeyPair::from_bytes(&short).is_none());
}

#[test]
fn params_serialization_round_trips() {
    let p = Parameters { degree: 0x0A0B0C0D, srs: vec![1, 2, 3, 4, 5] };
    let bytes = p.to_bytes();
    assert_eq!(bytes, vec![0x0D, 0x0C, 0x0B, 0x0A, 1, 2, 3, 4, 5]);

    let back = Parameters::from_bytes(&bytes).expect("framed entry must decode");
    assert_eq!(back.degree, p.degree);
    assert_eq!(back.srs, p.srs);

    // a file shorter than the degree header is not an entry
    assert!(Parameters::from_bytes(&vec![1, 2, 3]).is_none());
}

#[test]
fn params_map_rejects_a_mismatched_file_image() {
    let mut store = ParameterStore::new();
    let mut backend = FixedBackend::new();
    let degrees = vec![20u32, 25];
    // the image offered for degree 25 claims degree 24: fatal
    let disk = vec![None, Some(params_of(24))];
    let r = store.load_params_map(&mut backend, &degrees, &disk);
    assert_eq!(r.unwrap_err(), ProverError::ParamsIo);

    // a mismatched image behind an already-cached degree is never read
    let mut store = ParameterStore::new();
    let mut backend = FixedBackend::new();
    let degrees = vec![20u32, 20];
    let disk = vec![None, Some(params_of(24))];
    let out = store.load_params_map(&mut backend, &degrees, &disk).expect("params map");
    assert_eq!(out.len(), 2);
    assert_eq!(out[0].srs, out[1].srs);
}

#[test]
fn from_params_keeps_the_first_entry_per_degree() {
    let first = Parameters { degree: 25, srs: vec![0xAA] };
    let second = Parameters { degree: 25, srs: vec![0xBB] };
    let prover = Prover::from_params(FixedBackend::new(), config(), vec![first, second]);

    // nothing was generated and the cached entry is the first supplied one
    assert_eq!(prover.backend.setups, 0);
    let held = prover.store.get(25).expect("cached entry");
    assert_eq!(held.srs, vec![0xAA]);
}

#[test]
fn params_map_deduplicates_shared_degrees() {
    let mut store = ParameterStore::new();
    let mut backend = FixedBackend::new();
    let degrees = vec![20u32, 25, 20];
    let disk = vec![None, None, None];
    let out = store.load_params_map(&mut backend, &degrees, &disk).expect("params map");
    assert_eq!(out.len(), 3);
    assert_eq!(out[0].degree, 20);
    assert_eq!(out[1].degree, 25);
    assert_eq!(out[2].degree, 20);
    // two distinct degrees, two generations: the repeat hit the cache
    assert_eq!(backend.setups, 2);
    assert_eq!(out[0].srs, out[2].srs);
}
