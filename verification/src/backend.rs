use vstd::prelude::*;
use crate::artifact::{copy_bytes, ACC_BYTES, PI_BYTES};
use crate::errors::BackendFailure;
use crate::keys::{KeyPair, KeyPairView};
use crate::layer::{layer_code, spec_layer_code, spec_min_degree, LayerId};
use crate::params::{Parameters, ParamsView};
use crate::task::{spec_traces, BlockTrace, TraceView};

verus! {

/// What the proving backend hands back on success: the proof transcript and
/// the serialized public instance values of the layer.
#[derive(Debug)]
pub struct BackendProof {
    pub proof: Vec<u8>,
    pub instances: Vec<u8>,
}

/// The mathematical model of a [`BackendProof`].
#[verifier::ext_equal]
pub struct BackendProofView {
    pub proof: Seq<u8>,
    pub instances: Seq<u8>,
}

impl View for BackendProof {
    type V = BackendProofView;

    open spec fn view(&self) -> BackendProofView {
        BackendProofView { proof: self.proof@, instances: self.instances@ }
    }
}

/// The narrow interface the pipeline needs from a proving engine: parameter
/// generation, key derivation and proof construction. The commitment scheme
/// and transcript hashing behind it are out of scope; pinning key derivation
/// and proving to functions of their inputs is what makes repeated runs over
/// identical inputs byte-identical.
pub trait ProvingBackend: Sized {
    /// The keys this backend derives for a layer from a parameter set: key
    /// generation is deterministic given a fixed circuit shape and
    /// parameters.
    spec fn keys_of(layer: LayerId, params: ParamsView) -> KeyPairView;

    /// The outcome of proving: a function of the layer, the circuit inputs,
    /// the key and the blinding randomness alone, failures included.
    spec fn prove_of(
        layer: LayerId,
        traces: Seq<TraceView>,
        key: KeyPairView,
        randomness: Seq<u8>,
    ) -> Result<BackendProofView, BackendFailure>;

    /// Generates structured-reference-string parameters of `degree` from
    /// scratch. Expensive, and free to draw on the backend's own entropy:
    /// nothing beyond the degree is promised of the result.
    fn setup(&mut self, degree: u32) -> (r: Parameters)
        ensures
            r@.degree == degree,
    ;

    /// Derives the layer's keys from `params`. The caller owes parameters
    /// whose degree fits the layer's circuit shape.
    fn keygen(&self, layer: LayerId, params: &Parameters) -> (r: KeyPair)
        requires
            spec_min_degree(layer) <= params@.degree,
        ensures
            r@ == Self::keys_of(layer, params@),
            r@.layer == layer,
            r@.degree == params@.degree,
    ;

    /// Runs one proof construction. The result is exactly what `prove_of`
    /// maps the inputs to; an aggregation-layer success carries one logical
    /// instance column of `ACC_LEN + PI_LEN` field elements.
    fn prove(
        &self,
        layer: LayerId,
        key: &KeyPair,
        traces: &Vec<BlockTrace>,
        randomness: &Vec<u8>,
    ) -> (r: Result<BackendProof, BackendFailure>)
        requires
            traces@.len() > 0,
        ensures
            ({
                let m = Self::prove_of(layer, spec_traces(traces@), key@, randomness@);
                &&& r is Ok <==> m is Ok
                &&& r is Ok ==> r->Ok_0@ == m->Ok_0
                &&& r is Err ==> r->Err_0 == m->Err_0
                &&& r is Ok && layer == LayerId::Chunk ==> r->Ok_0.instances@.len() == ACC_BYTES
                    + PI_BYTES
            }),
    ;
}

/// A stub proving engine returning fixed, shape-correct bytes: it lets the
/// pipeline be exercised and tested without a cryptographic backend, and
/// counts how often parameters are generated so caching is observable.
pub struct FixedBackend {
    pub setups: u64,
}

impl FixedBackend {
    /// A stub backend that has generated nothing yet.
    pub fn new() -> (r: Self)
        ensures
            r.setups == 0,
    {
        FixedBackend { setups: 0 }
    }
}

impl ProvingBackend for FixedBackend {
    open spec fn keys_of(layer: LayerId, params: ParamsView) -> KeyPairView {
        KeyPairView {
            layer,
            degree: params.degree,
            pk: seq![spec_layer_code(layer)],
            vk: seq![spec_layer_code(layer)],
        }
    }

    open spec fn prove_of(
        layer: LayerId,
        traces: Seq<TraceView>,
        key: KeyPairView,
        randomness: Seq<u8>,
    ) -> Result<BackendProofView, BackendFailure> {
        Ok(
            BackendProofView {
                proof: randomness + key.pk,
                instances: if layer == LayerId::Chunk {
                    Seq::new((ACC_BYTES + PI_BYTES) as nat, |i: int| 0u8)
                } else {
                    Seq::empty()
                },
            },
        )
    }

    fn setup(&mut self, degree: u32) -> (r: Parameters) {
        if self.setups < u64::MAX {
            self.setups = self.setups + 1;
        }
        Parameters { degree, srs: Vec::new() }
    }

    fn keygen(&self, layer: LayerId, params: &Parameters) -> (r: KeyPair) {
        let tag = layer_code(layer);
        let mut pk: Vec<u8> = Vec::new();
        pk.push(tag);
        let mut vk: Vec<u8> = Vec::new();
        vk.push(tag);
        let r = KeyPair { layer, degree: params.degree, pk, vk };
        proof {
            assert(r@.pk =~= seq![spec_layer_code(layer)]);
            assert(r@.vk =~= seq![spec_layer_code(layer)]);
            assert(r@ =~= Self::keys_of(layer, params@));
        }
        r
    }

    fn prove(
        &self,
        layer: LayerId,
        key: &KeyPair,
        traces: &Vec<BlockTrace>,
        randomness: &Vec<u8>,
    ) -> (r: Result<BackendProof, BackendFailure>) {
        let mut pb = copy_bytes(randomness);
        let mut tail = copy_bytes(&key.pk);
        pb.append(&mut tail);
        let mut ins: Vec<u8> = Vec::new();
        if matches!(layer, LayerId::Chunk) {
            let mut i: usize = 0;
            while i < ACC_BYTES + PI_BYTES
                invariant
                    i <= ACC_BYTES + PI_BYTES,
                    ins@.len() == i,
                    forall|j: int| 0 <= j < i ==> #[trigger] ins@[j] == 0u8,
                decreases ACC_BYTES + PI_BYTES - i,
            {
                ins.push(0u8);
                i += 1;
            }
        }
        let out = BackendProof { proof: pb, instances: ins };
        proof {
            let m = Self::prove_of(layer, spec_traces(traces@), key@, randomness@);
            if layer == LayerId::Chunk {
                assert(out@.instances =~= Seq::new((ACC_BYTES + PI_BYTES) as nat, |i: int| 0u8));
            } else {
                assert(out@.instances =~= Seq::<u8>::empty());
            }
            assert(out@ =~= m->Ok_0);
        }
        Ok(out)
    }
}

} // verus!
