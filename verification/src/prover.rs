use vstd::prelude::*;
use crate::artifact::{Proof, ProofView};
use crate::backend::{BackendProofView, ProvingBackend};
use crate::batch::encodable;
use crate::errors::{ProofFailureCause, ProverError};
use crate::keys::{KeyManager, KeyPair, KeyPairView};
use crate::layer::{min_degree, spec_min_degree, LayerId, ProverConfig};
use crate::params::{lemma_spec_params, ParameterStore, Parameters, ParamsView};
use crate::randomness::RandomnessSource;
use crate::task::{spec_traces, BlockTrace, ChunkProvingTask, TraceView};

verus! {

/// Bytes of blinding randomness one proof construction consumes.
pub const RANDOMNESS_BYTES: usize = 64;

/// The artifact wrapped around a backend success: the proof transcript and
/// instances as returned, under the verifying key the proof ran with.
pub open spec fn spec_wrap(bp: BackendProofView, key: KeyPairView) -> ProofView {
    ProofView { proof: bp.proof, instances: bp.instances, vk: key.vk }
}

/// The key a proof construction runs under: a supplied cached key whose
/// layer and degree fit, else the key derived from the layer's parameters.
/// A fitting cached key that equals the derived key is semantically inert:
/// the outcome is the same as deriving afresh.
pub open spec fn spec_used_key<B: ProvingBackend>(
    layer: LayerId,
    params: ParamsView,
    cached: Option<KeyPairView>,
) -> KeyPairView {
    match cached {
        Some(k) => if k.layer == layer && k.degree == params.degree {
            k
        } else {
            B::keys_of(layer, params)
        },
        None => B::keys_of(layer, params),
    }
}

/// The model of an optionally supplied cached key.
pub open spec fn spec_key_view(cached: Option<&KeyPair>) -> Option<KeyPairView> {
    match cached {
        Some(k) => Some(k@),
        None => None,
    }
}

/// Orchestrates proof generation across layers over an abstract proving
/// backend. Parameters and keys are resolved once per request from the
/// store and the key manager; every request draws its blinding randomness
/// from a source owned by that call alone.
pub struct Prover<B: ProvingBackend> {
    pub backend: B,
    pub store: ParameterStore,
    pub keys: KeyManager,
    pub config: ProverConfig,
}

impl<B: ProvingBackend> Prover<B> {
    /// The prover's parameter cache never holds two entries of one degree.
    pub open spec fn wf(self) -> bool {
        self.store.wf()
    }

    /// What a proof request at `layer` over `traces` resolves to, given the
    /// cached key offered and the blinding randomness drawn: the checks run
    /// in order — work present, parameters loaded, degree capacity — and a
    /// surviving request is the backend's outcome wrapped into an artifact.
    pub open spec fn spec_outcome(
        self,
        layer: LayerId,
        traces: Seq<TraceView>,
        cached: Option<KeyPairView>,
        rand: Seq<u8>,
    ) -> Result<ProofView, ProverError> {
        let deg = self.config.spec_degree_of(layer);
        if traces.len() == 0 {
            Err(ProverError::ProofGeneration(layer, ProofFailureCause::EmptyTask))
        } else if !self.store.spec_has(deg) {
            Err(ProverError::ParamsIo)
        } else if self.store.spec_params(deg).degree < spec_min_degree(layer) {
            Err(ProverError::Keygen(layer))
        } else {
            let kv = spec_used_key::<B>(layer, self.store.spec_params(deg), cached);
            match B::prove_of(layer, traces, kv, rand) {
                Ok(bp) => Ok(spec_wrap(bp, kv)),
                Err(f) => Err(ProverError::ProofGeneration(layer, ProofFailureCause::Backend(f))),
            }
        }
    }

    /// Whether a request gets as far as drawing randomness and invoking the
    /// backend; a request stopped earlier leaves the randomness source
    /// untouched.
    pub open spec fn spec_reaches_backend(self, layer: LayerId, traces: Seq<TraceView>) -> bool {
        let deg = self.config.spec_degree_of(layer);
        traces.len() > 0 && self.store.spec_has(deg) && self.store.spec_params(deg).degree
            >= spec_min_degree(layer)
    }

    /// A prover with an empty parameter cache.
    pub fn new(backend: B, config: ProverConfig) -> (r: Self)
        ensures
            r.wf(),
            r.backend == backend,
            r.config == config,
            r.store.cache().len() == 0,
    {
        Prover { backend, store: ParameterStore::new(), keys: KeyManager::new(), config }
    }

    /// A prover whose cache is seeded from already-loaded parameter sets,
    /// one per degree: each degree's first supplied entry is what the cache
    /// holds for it, a repeated degree's later entries are dropped, and the
    /// backend comes through untouched — nothing is generated here.
    #[verifier::rlimit(60)]
    pub fn from_params(backend: B, config: ProverConfig, params: Vec<Parameters>) -> (r: Self)
        ensures
            r.wf(),
            r.backend == backend,
            r.config == config,
            forall|i: int|
                0 <= i < params@.len() ==> r.store.spec_has((#[trigger] params@[i])@.degree),
            forall|i: int|
                0 <= i < params@.len() && (forall|k: int|
                    0 <= k < i ==> (#[trigger] params@[k])@.degree != params@[i]@.degree)
                    ==> r.store.spec_holds((#[trigger] params@[i])@.degree, params@[i]@),
    {
        let mut prover = Prover {
            backend,
            store: ParameterStore::new(),
            keys: KeyManager::new(),
            config,
        };
        let mut i: usize = 0;
        while i < params.len()
            invariant
                prover.wf(),
                prover.backend == backend,
                prover.config == config,
                i <= params@.len(),
                forall|j: int|
                    0 <= j < i ==> prover.store.spec_has((#[trigger] params@[j])@.degree),
                forall|dd: u32|
                    #[trigger] prover.store.spec_has(dd) ==> exists|j: int|
                        0 <= j < i && (#[trigger] params@[j])@.degree == dd,
                forall|j: int|
                    0 <= j < i && (forall|k: int|
                        0 <= k < j ==> (#[trigger] params@[k])@.degree != params@[j]@.degree)
                        ==> prover.store.spec_holds((#[trigger] params@[j])@.degree, params@[j]@),
            decreases params.len() - i,
        {
            let p = params[i].duplicate();
            let ghost pv = p@;
            let d = p.degree;
            let ghost pre = prover.store;
            let got = prover.store.load_or_create(&mut prover.backend, d, Some(p));
            proof {
                assert(prover.store.spec_has(d));
                assert forall|j: int|
                    0 <= j < i + 1 implies prover.store.spec_has(
                    (#[trigger] params@[j])@.degree,
                ) by {
                    if j < i {
                        let dj = params@[j]@.degree;
                        let k = choose|k: int|
                            0 <= k < pre.cache().len() && #[trigger] pre.cache()[k].degree == dj;
                        assert(pre.spec_holds(dj, pre.cache()[k]));
                        assert(prover.store.spec_holds(dj, pre.cache()[k]));
                    }
                }
                assert forall|dd: u32| #[trigger] prover.store.spec_has(dd) implies exists|j: int|
                    0 <= j < i + 1 && (#[trigger] params@[j])@.degree == dd by {
                    let k = choose|k: int|
                        0 <= k < prover.store.cache().len()
                            && #[trigger] prover.store.cache()[k].degree == dd;
                    let v = prover.store.cache()[k];
                    assert(prover.store.spec_holds(dd, v));
                    if pre.spec_holds(dd, v) {
                        let kk = choose|kk: int|
                            0 <= kk < pre.cache().len() && #[trigger] pre.cache()[kk] == v;
                        assert(pre.cache()[kk].degree == dd);
                        assert(pre.spec_has(dd));
                    } else {
                        assert(dd == d);
                        assert((params@[i as int])@.degree == dd);
                    }
                }
                assert forall|j: int|
                    0 <= j < i + 1 && (forall|k: int|
                        0 <= k < j ==> (#[trigger] params@[k])@.degree != params@[j]@.degree)
                        implies prover.store.spec_holds(
                    (#[trigger] params@[j])@.degree,
                    params@[j]@,
                ) by {
                    if j < i {
                        assert(pre.spec_holds(params@[j]@.degree, params@[j]@));
                        assert(prover.store.spec_holds(params@[j]@.degree, params@[j]@));
                    } else {
                        if pre.spec_has(d) {
                            let jj = choose|jj: int|
                                0 <= jj < i && (#[trigger] params@[jj])@.degree == d;
                            assert((params@[jj])@.degree == params@[j]@.degree);
                            assert(false);
                        }
                        assert(got is Ok && got->Ok_0@ == pv);
                        assert(prover.store.spec_holds(d, pv));
                    }
                }
            }
            i += 1;
        }
        prover
    }

    /// Runs one proof request at `layer` over `traces`. The result is
    /// exactly `spec_outcome` of the inputs and the randomness drawn, and
    /// an aggregation-layer success is always encodable into the batch
    /// layout.
    pub fn prove_layer(
        &self,
        rng: &mut RandomnessSource,
        layer: LayerId,
        traces: &Vec<BlockTrace>,
        cached_key: Option<&KeyPair>,
    ) -> (r: Result<Proof, ProverError>)
        requires
            self.wf(),
            old(rng).spec_drawn() + RANDOMNESS_BYTES <= usize::MAX,
        ensures
            ({
                let s = self.spec_outcome(
                    layer,
                    spec_traces(traces@),
                    spec_key_view(cached_key),
                    old(rng).spec_draw(RANDOMNESS_BYTES as nat),
                );
                &&& r is Ok <==> s is Ok
                &&& r is Ok ==> r->Ok_0@ == s->Ok_0
                &&& r is Err ==> r->Err_0 == s->Err_0
            }),
            final(rng).spec_seed() == old(rng).spec_seed(),
            self.spec_reaches_backend(layer, spec_traces(traces@)) ==> final(rng).spec_drawn()
                == old(rng).spec_drawn() + RANDOMNESS_BYTES,
            !self.spec_reaches_backend(layer, spec_traces(traces@)) ==> *final(rng) == *old(rng),
            r is Ok && layer == LayerId::Chunk ==> encodable(r->Ok_0@),
    {
        proof {
            assert(spec_traces(traces@).len() == traces@.len());
        }
        if traces.len() == 0 {
            return Err(ProverError::ProofGeneration(layer, ProofFailureCause::EmptyTask));
        }
        let deg = self.config.degree_of(layer);
        let params = match self.store.get(deg) {
            Some(p) => p,
            None => {
                return Err(ProverError::ParamsIo);
            },
        };
        proof {
            lemma_spec_params(self.store, deg);
            assert(params@ == self.store.spec_params(deg));
        }
        if params.degree < min_degree(layer) {
            return Err(ProverError::Keygen(layer));
        }
        let key = match cached_key {
            Some(k) => {
                if k.layer == layer && k.degree == params.degree {
                    k.duplicate()
                } else {
                    match self.keys.gen_key(&self.backend, layer, &params) {
                        Ok(kk) => kk,
                        Err(e) => {
                            return Err(e);
                        },
                    }
                }
            },
            None => {
                match self.keys.gen_key(&self.backend, layer, &params) {
                    Ok(kk) => kk,
                    Err(e) => {
                        return Err(e);
                    },
                }
            },
        };
        proof {
            assert(key@ == spec_used_key::<B>(layer, params@, spec_key_view(cached_key)));
        }
        let randomness = rng.draw(RANDOMNESS_BYTES);
        match self.backend.prove(layer, &key, traces, &randomness) {
            Ok(bp) => {
                let out = Proof { proof: bp.proof, instances: bp.instances, vk: key.vk };
                proof {
                    let s = self.spec_outcome(
                        layer,
                        spec_traces(traces@),
                        spec_key_view(cached_key),
                        old(rng).spec_draw(RANDOMNESS_BYTES as nat),
                    );
                    assert(out@ =~= s->Ok_0);
                }
                Ok(out)
            },
            Err(f) => Err(ProverError::ProofGeneration(layer, ProofFailureCause::Backend(f))),
        }
    }

    /// One proof per single unit of base work, at the innermost layer.
    pub fn gen_inner_proof(&self, rng: &mut RandomnessSource, traces: &Vec<BlockTrace>) -> (r:
        Result<Proof, ProverError>)
        requires
            self.wf(),
            old(rng).spec_drawn() + RANDOMNESS_BYTES <= usize::MAX,
        ensures
            ({
                let s = self.spec_outcome(
                    LayerId::Inner,
                    spec_traces(traces@),
                    None,
                    old(rng).spec_draw(RANDOMNESS_BYTES as nat),
                );
                &&& r is Ok <==> s is Ok
                &&& r is Ok ==> r->Ok_0@ == s->Ok_0
                &&& r is Err ==> r->Err_0 == s->Err_0
            }),
            final(rng).spec_seed() == old(rng).spec_seed(),
            self.spec_reaches_backend(LayerId::Inner, spec_traces(traces@)) ==> final(rng).spec_drawn()
                == old(rng).spec_drawn() + RANDOMNESS_BYTES,
            !self.spec_reaches_backend(LayerId::Inner, spec_traces(traces@)) ==> *final(rng) == *old(
                rng,
            ),
    {
        self.prove_layer(rng, LayerId::Inner, traces, None)
    }

    /// Aggregates the inner proofs of every trace in the task into one
    /// recursive proof at the aggregation layer. An empty task fails fast —
    /// the backend is never invoked and no randomness is drawn — and a
    /// success is always encodable into the batch layout.
    pub fn gen_chunk_proof(
        &self,
        rng: &mut RandomnessSource,
        task: &ChunkProvingTask,
        cached_key: Option<&KeyPair>,
    ) -> (r: Result<Proof, ProverError>)
        requires
            self.wf(),
            old(rng).spec_drawn() + RANDOMNESS_BYTES <= usize::MAX,
        ensures
            ({
                let s = self.spec_outcome(
                    LayerId::Chunk,
                    spec_traces(task.block_traces@),
                    spec_key_view(cached_key),
                    old(rng).spec_draw(RANDOMNESS_BYTES as nat),
                );
                &&& r is Ok <==> s is Ok
                &&& r is Ok ==> r->Ok_0@ == s->Ok_0
                &&& r is Err ==> r->Err_0 == s->Err_0
            }),
            task.spec_is_empty() ==> r == Err::<Proof, ProverError>(
                ProverError::ProofGeneration(LayerId::Chunk, ProofFailureCause::EmptyTask),
            ) && *final(rng) == *old(rng),
            r is Ok ==> encodable(r->Ok_0@),
            final(rng).spec_seed() == old(rng).spec_seed(),
            self.spec_reaches_backend(LayerId::Chunk, spec_traces(task.block_traces@)) ==> final(rng).spec_drawn()
                == old(rng).spec_drawn() + RANDOMNESS_BYTES,
            !self.spec_reaches_backend(LayerId::Chunk, spec_traces(task.block_traces@)) ==> *final(rng) == *old(
                rng,
            ),
    {
        self.prove_layer(rng, LayerId::Chunk, &task.block_traces, cached_key)
    }

    /// A single, non-recursive proof over all supplied traces in one
    /// circuit, for when aggregation is unnecessary.
    pub fn gen_super_proof(&self, rng: &mut RandomnessSource, traces: &Vec<BlockTrace>) -> (r:
        Result<Proof, ProverError>)
        requires
            self.wf(),
            old(rng).spec_drawn() + RANDOMNESS_BYTES <= usize::MAX,
        ensures
            ({
                let s = self.spec_outcome(
                    LayerId::Super,
                    spec_traces(traces@),
                    None,
                    old(rng).spec_draw(RANDOMNESS_BYTES as nat),
                );
                &&& r is Ok <==> s is Ok
                &&& r is Ok ==> r->Ok_0@ == s->Ok_0
                &&& r is Err ==> r->Err_0 == s->Err_0
            }),
            final(rng).spec_seed() == old(rng).spec_seed(),
            self.spec_reaches_backend(LayerId::Super, spec_traces(traces@)) ==> final(rng).spec_drawn()
                == old(rng).spec_drawn() + RANDOMNESS_BYTES,
            !self.spec_reaches_backend(LayerId::Super, spec_traces(traces@)) ==> *final(rng) == *old(
                rng,
            ),
    {
        self.prove_layer(rng, LayerId::Super, traces, None)
    }

    /// Proves the same chunk directly against a second proving target,
    /// bypassing the layered aggregation; used for cross-checking, not part
    /// of the production trust chain.
    pub fn gen_sp1_snark(&self, rng: &mut RandomnessSource, block_traces: &Vec<BlockTrace>) -> (r:
        Result<Proof, ProverError>)
        requires
            self.wf(),
            old(rng).spec_drawn() + RANDOMNESS_BYTES <= usize::MAX,
        ensures
            ({
                let s = self.spec_outcome(
                    LayerId::Sp1,
                    spec_traces(block_traces@),
                    None,
                    old(rng).spec_draw(RANDOMNESS_BYTES as nat),
                );
                &&& r is Ok <==> s is Ok
                &&& r is Ok ==> r->Ok_0@ == s->Ok_0
                &&& r is Err ==> r->Err_0 == s->Err_0
            }),
            final(rng).spec_seed() == old(rng).spec_seed(),
            self.spec_reaches_backend(LayerId::Sp1, spec_traces(block_traces@)) ==> final(rng).spec_drawn()
                == old(rng).spec_drawn() + RANDOMNESS_BYTES,
            !self.spec_reaches_backend(LayerId::Sp1, spec_traces(block_traces@)) ==> *final(rng) == *old(
                rng,
            ),
    {
        self.prove_layer(rng, LayerId::Sp1, block_traces, None)
    }

    /// The transcript bytes of an evm-circuit proof over one block trace.
    pub fn create_evm_proof(&self, rng: &mut RandomnessSource, trace: &BlockTrace) -> (r: Result<
        Vec<u8>,
        ProverError,
    >)
        requires
            self.wf(),
            old(rng).spec_drawn() + RANDOMNESS_BYTES <= usize::MAX,
        ensures
            ({
                let s = self.spec_outcome(
                    LayerId::Evm,
                    seq![trace@],
                    None,
                    old(rng).spec_draw(RANDOMNESS_BYTES as nat),
                );
                &&& r is Ok <==> s is Ok
                &&& r is Ok ==> r->Ok_0@ == s->Ok_0.proof
                &&& r is Err ==> r->Err_0 == s->Err_0
            }),
            final(rng).spec_seed() == old(rng).spec_seed(),
            self.spec_reaches_backend(LayerId::Evm, seq![trace@]) ==> final(rng).spec_drawn()
                == old(rng).spec_drawn() + RANDOMNESS_BYTES,
            !self.spec_reaches_backend(LayerId::Evm, seq![trace@]) ==> *final(rng) == *old(
                rng,
            ),
    {
        let mut ts: Vec<BlockTrace> = Vec::new();
        ts.push(trace.duplicate());
        proof {
            assert(spec_traces(ts@) =~= seq![trace@]);
        }
        match self.prove_layer(rng, LayerId::Evm, &ts, None) {
            Ok(p) => Ok(p.proof),
            Err(e) => Err(e),
        }
    }

    /// The transcript bytes of a state-circuit proof over one block trace.
    pub fn create_state_proof(&self, rng: &mut RandomnessSource, trace: &BlockTrace) -> (r: Result<
        Vec<u8>,
        ProverError,
    >)
        requires
            self.wf(),
            old(rng).spec_drawn() + RANDOMNESS_BYTES <= usize::MAX,
        ensures
            ({
                let s = self.spec_outcome(
                    LayerId::State,
                    seq![trace@],
                    None,
                    old(rng).spec_draw(RANDOMNESS_BYTES as nat),
                );
                &&& r is Ok <==> s is Ok
                &&& r is Ok ==> r->Ok_0@ == s->Ok_0.proof
                &&& r is Err ==> r->Err_0 == s->Err_0
            }),
            final(rng).spec_seed() == old(rng).spec_seed(),
            self.spec_reaches_backend(LayerId::State, seq![trace@]) ==> final(rng).spec_drawn()
                == old(rng).spec_drawn() + RANDOMNESS_BYTES,
            !self.spec_reaches_backend(LayerId::State, seq![trace@]) ==> *final(rng) == *old(
                rng,
            ),
    {
        let mut ts: Vec<BlockTrace> = Vec::new();
        ts.push(trace.duplicate());
        proof {
            assert(spec_traces(ts@) =~= seq![trace@]);
        }
        match self.prove_layer(rng, LayerId::State, &ts, None) {
            Ok(p) => Ok(p.proof),
            Err(e) => Err(e),
        }
    }
}

/// Supplying a cached key that is the derived key of the layer's parameters
/// is a pure performance choice: the outcome is identical to deriving the
/// key afresh, so key reuse across runs never changes a proof.
pub proof fn lemma_cached_key_inert<B: ProvingBackend>(
    p: Prover<B>,
    layer: LayerId,
    traces: Seq<TraceView>,
    rand: Seq<u8>,
    kv: KeyPairView,
)
    requires
        kv == B::keys_of(layer, p.store.spec_params(p.config.spec_degree_of(layer))),
        kv.layer == layer,
        kv.degree == p.store.spec_params(p.config.spec_degree_of(layer)).degree,
    ensures
        p.spec_outcome(layer, traces, Some(kv), rand) == p.spec_outcome(layer, traces, None, rand),
{
}

/// Reproducibility: the outcome of a proof request is a function of the
/// parameter cache, the configuration, the request and the randomness
/// alone — never of the backend instance's own state — so two provers set
/// up alike resolve identical requests identically, failures included.
pub proof fn lemma_outcome_reproducible<B: ProvingBackend>(
    p1: Prover<B>,
    p2: Prover<B>,
    layer: LayerId,
    traces: Seq<TraceView>,
    cached: Option<KeyPairView>,
    rand: Seq<u8>,
)
    requires
        p1.store == p2.store,
        p1.config == p2.config,
    ensures
        p1.spec_outcome(layer, traces, cached, rand) == p2.spec_outcome(layer, traces, cached, rand),
{
}

} // verus!
