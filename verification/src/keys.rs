use vstd::prelude::*;
use vstd::bytes::{
    lemma_auto_spec_u32_to_from_le_bytes, spec_u32_from_le_bytes, spec_u32_to_le_bytes,
    u32_from_le_bytes, u32_to_le_bytes,
};
use crate::artifact::{copy_bytes, copy_range};
use crate::backend::ProvingBackend;
use crate::errors::ProverError;
use crate::layer::{
    layer_code, layer_of_code, lemma_layer_code_round_trip, min_degree, spec_layer_code,
    spec_layer_of_code, spec_min_degree, LayerId,
};
use crate::params::Parameters;

verus! {

/// The proving and verifying key of one layer, derived once from a parameter
/// set of a fixed degree. Opaque blobs to the core; immutable once built and
/// safely shared read-only across concurrent proof generations.
#[derive(Debug)]
pub struct KeyPair {
    pub layer: LayerId,
    pub degree: u32,
    pub pk: Vec<u8>,
    pub vk: Vec<u8>,
}

/// The mathematical model of a [`KeyPair`].
#[verifier::ext_equal]
pub struct KeyPairView {
    pub layer: LayerId,
    pub degree: u32,
    pub pk: Seq<u8>,
    pub vk: Seq<u8>,
}

impl View for KeyPair {
    type V = KeyPairView;

    open spec fn view(&self) -> KeyPairView {
        KeyPairView { layer: self.layer, degree: self.degree, pk: self.pk@, vk: self.vk@ }
    }
}

impl KeyPair {
    /// A fresh key pair with the same model: keys are shared by copying,
    /// never mutated.
    pub fn duplicate(&self) -> (r: KeyPair)
        ensures
            r@ == self@,
    {
        let r = KeyPair {
            layer: self.layer,
            degree: self.degree,
            pk: copy_bytes(&self.pk),
            vk: copy_bytes(&self.vk),
        };
        proof {
            assert(r@ =~= self@);
        }
        r
    }
}

/// The cache-file form of a key pair: the layer's code byte, four
/// little-endian degree bytes, four little-endian proving-key length bytes,
/// then the proving key and the verifying key.
pub open spec fn spec_key_bytes(v: KeyPairView) -> Seq<u8> {
    seq![spec_layer_code(v.layer)] + spec_u32_to_le_bytes(v.degree) + spec_u32_to_le_bytes(
        v.pk.len() as u32,
    ) + v.pk + v.vk
}

impl KeyPair {
    /// Serializes this key pair into its cache-file form.
    pub fn to_bytes(&self) -> (r: Vec<u8>)
        requires
            self.pk@.len() <= u32::MAX,
        ensures
            r@ == spec_key_bytes(self@),
    {
        let mut out: Vec<u8> = Vec::new();
        out.push(layer_code(self.layer));
        let mut deg = u32_to_le_bytes(self.degree);
        out.append(&mut deg);
        let mut len_b = u32_to_le_bytes(self.pk.len() as u32);
        out.append(&mut len_b);
        let mut pk = copy_bytes(&self.pk);
        out.append(&mut pk);
        let mut vk = copy_bytes(&self.vk);
        out.append(&mut vk);
        proof {
            assert(out@ =~= spec_key_bytes(self@));
        }
        out
    }

    /// Decodes a cache-file image. `None` exactly when the header is
    /// incomplete, the layer code is unknown, or the proving key is cut
    /// short.
    pub fn from_bytes(bytes: &Vec<u8>) -> (r: Option<KeyPair>)
        ensures
            r is Some <==> bytes@.len() >= 9 && spec_layer_of_code(bytes@[0]) is Some && bytes@.len()
                >= 9 + spec_u32_from_le_bytes(bytes@.subrange(5, 9)),
            r is Some ==> ({
                let pk_len = spec_u32_from_le_bytes(bytes@.subrange(5, 9)) as int;
                &&& r->0@.layer == spec_layer_of_code(bytes@[0])->0
                &&& r->0@.degree == spec_u32_from_le_bytes(bytes@.subrange(1, 5))
                &&& r->0@.pk == bytes@.subrange(9, 9 + pk_len)
                &&& r->0@.vk == bytes@.subrange(9 + pk_len, bytes@.len() as int)
            }),
    {
        if bytes.len() < 9 {
            return None;
        }
        let layer = match layer_of_code(bytes[0]) {
            Some(l) => l,
            None => {
                return None;
            },
        };
        let deg_b = copy_range(bytes, 1, 5);
        let degree = u32_from_le_bytes(deg_b.as_slice());
        let len_b = copy_range(bytes, 5, 9);
        let pk_len = u32_from_le_bytes(len_b.as_slice()) as usize;
        if bytes.len() - 9 < pk_len {
            return None;
        }
        let pk = copy_range(bytes, 9, 9 + pk_len);
        let vk = copy_range(bytes, 9 + pk_len, bytes.len());
        Some(KeyPair { layer, degree, pk, vk })
    }
}

/// A serialized key pair decodes back to itself: the cache-file framing
/// loses nothing.
pub proof fn lemma_key_bytes_round_trip(v: KeyPairView)
    requires
        v.pk.len() <= u32::MAX,
    ensures
        ({
            let b = spec_key_bytes(v);
            &&& b.len() >= 9
            &&& spec_layer_of_code(b[0]) == Some(v.layer)
            &&& spec_u32_from_le_bytes(b.subrange(1, 5)) == v.degree
            &&& spec_u32_from_le_bytes(b.subrange(5, 9)) == v.pk.len()
            &&& b.subrange(9, 9 + v.pk.len() as int) == v.pk
            &&& b.subrange(9 + v.pk.len() as int, b.len() as int) == v.vk
        }),
{
    lemma_auto_spec_u32_to_from_le_bytes();
    lemma_layer_code_round_trip(v.layer);
    let b = spec_key_bytes(v);
    assert(b.subrange(1, 5) =~= spec_u32_to_le_bytes(v.degree));
    assert(b.subrange(5, 9) =~= spec_u32_to_le_bytes(v.pk.len() as u32));
    assert(b.subrange(9, 9 + v.pk.len() as int) =~= v.pk);
    assert(b.subrange(9 + v.pk.len() as int, b.len() as int) =~= v.vk);
}

/// Derives layer keys from parameter-store entries. Key generation is a pure
/// function of the layer and the parameters: repeated calls yield identical
/// keys, so the manager itself carries no state.
pub struct KeyManager {}

impl KeyManager {
    /// A key manager.
    pub fn new() -> (r: Self) {
        KeyManager {}
    }

    /// Derives the proving and verifying key of `layer` from `params`.
    /// Deterministic: the result is pinned to the backend's key-derivation
    /// function of `(layer, parameters)` alone, so two calls with identical
    /// inputs give byte-identical keys. Fails exactly when the layer's
    /// circuit shape exceeds the degree's row capacity: a fatal,
    /// non-retryable configuration error.
    pub fn gen_key<B: ProvingBackend>(
        &self,
        backend: &B,
        layer: LayerId,
        params: &Parameters,
    ) -> (r: Result<KeyPair, ProverError>)
        ensures
            r is Ok <==> spec_min_degree(layer) <= params@.degree,
            r is Ok ==> r->Ok_0@ == B::keys_of(layer, params@),
            r is Err ==> r->Err_0 == ProverError::Keygen(layer),
    {
        if min_degree(layer) <= params.degree {
            Ok(backend.keygen(layer, params))
        } else {
            Err(ProverError::Keygen(layer))
        }
    }
}

} // verus!
