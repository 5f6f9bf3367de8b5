use zk_prover::backend::{BackendProof, BackendProofView, ProvingBackend};
use zk_prover::errors::{BackendFailure, ProofFailureCause, ProverError};
use zk_prover::keys::{KeyPair, KeyPairView};
use zk_prover::layer::{LayerId, ProverConfig};
use zk_prover::params::{Parameters, ParamsView};
use zk_prover::prover::Prover;
use zk_prover::randomness::RandomnessSource;
use zk_prover::task::{BlockTrace, TraceView};

/// A backend whose proof construction always fails: witness assignment and
/// synthesis failures must surface as proof-generation errors, never retried
/// and never turned into partial proofs.
struct FailingBackend;

impl ProvingBackend for FailingBackend {
    // the two model functions are never run; they exist only for the
    // trait's shape
    fn keys_of(_: LayerId, _: ParamsView) -> KeyPairView {
        panic!()
    }

    fn prove_of(
        _: LayerId,
        _: vstd::seq::Seq<TraceView>,
        _: KeyPairView,
        _: vstd::seq::Seq<u8>,
    ) -> Result<BackendProofView, BackendFailure> {
        panic!()
    }

    fn setup(&mut self, degree: u32) -> Parameters {
        Parameters { degree, srs: Vec::new() }
    }

    fn keygen(&self, layer: LayerId, params: &Parameters) -> KeyPair {
        let _ = layer;
        KeyPair { layer, degree: params.degree, pk: vec![0], vk: vec![0] }
    }

    fn prove(
        &self,
        _layer: LayerId,
        _key: &KeyPair,
        _traces: &Vec<BlockTrace>,
        _randomness: &Vec<u8>,
    ) -> Result<BackendProof, BackendFailure> {
        Err(BackendFailure::Witness)
    }
}

#[test]
fn backend_failure_surfaces_with_the_layer() {
    let config = ProverConfig {
        inner_degree: 20,
        chunk_degree: 25,
        super_degree: 26,
        sp1_degree: 24,
        evm_degree: 18,
        state_degree: 18,
    };
    let params = vec![Parameters { degree: 20, srs: Vec::new() }];
    let prover = Prover::from_params(FailingBackend, config, params);
    let mut rng = RandomnessSource::from_seed([0x77u8; 16]);
    let traces = vec![BlockTrace { id: 1, data: vec![1] }];

    let r = prover.gen_inner_proof(&mut rng, &traces);
    assert_eq!(
        r.unwrap_err(),
        ProverError::ProofGeneration(
            LayerId::Inner,
            ProofFailureCause::Backend(BackendFailure::Witness)
        )
    );
}
