use vstd::prelude::*;
use vstd::string::StringExecFns;
use crate::artifact::{
    copy_bytes, dump_filename, spec_dump_filename, Proof, ProofView, ACC_BYTES, PI_BYTES,
};
use crate::errors::ProverError;

verus! {

/// The file set one named batch proof is persisted as: raw public-input
/// bytes, raw proof bytes, the verifying key blob, and a single JSON
/// document flattening the same three fields. The core computes names and
/// contents; the caller that owns the output directory writes them, and its
/// serializer assembles the JSON document from the artifact itself.
#[derive(Debug)]
pub struct ProofFiles {
    pub pi_name: String,
    pub pi_data: Vec<u8>,
    pub proof_name: String,
    pub proof_data: Vec<u8>,
    pub vk_name: String,
    pub vk_data: Vec<u8>,
    pub json_name: String,
}

/// A proof artifact re-encoded into the batch/calldata layout an on-chain
/// verifier expects: the accumulator is split off the instance vector and
/// appended to the proof bytes, and only the application public input is
/// kept as instances.
#[derive(Debug)]
pub struct BatchProof {
    pub raw: Proof,
}

impl View for BatchProof {
    type V = ProofView;

    open spec fn view(&self) -> ProofView {
        self.raw@
    }
}

/// An aggregation-layer artifact can be turned into the batch layout exactly
/// when its instances decode to the accumulator followed by the public input:
/// one logical column of `ACC_LEN + PI_LEN` field elements.
pub open spec fn encodable(v: ProofView) -> bool {
    v.instances.len() == ACC_BYTES + PI_BYTES
}

/// The batch layout of an encodable artifact: the serialized accumulator
/// moves from the front of the instances to the tail of the proof bytes.
pub open spec fn spec_encode(v: ProofView) -> ProofView {
    ProofView {
        proof: v.proof + v.instances.subrange(0, ACC_BYTES as int),
        instances: v.instances.subrange(ACC_BYTES as int, v.instances.len() as int),
        vk: v.vk,
    }
}

/// A batch artifact can be decoded exactly when a non-empty proof prefix
/// stands before the accumulator tail and the instances hold exactly the
/// public input.
pub open spec fn decodable(v: ProofView) -> bool {
    v.proof.len() > ACC_BYTES && v.instances.len() == PI_BYTES
}

/// The inverse transform: the accumulator tail moves back to the front of
/// the instance vector, restoring the aggregation-layer artifact.
pub open spec fn spec_decode(v: ProofView) -> ProofView {
    ProofView {
        proof: v.proof.subrange(0, v.proof.len() - ACC_BYTES),
        instances: v.proof.subrange(v.proof.len() - ACC_BYTES, v.proof.len() as int)
            + v.instances,
        vk: v.vk,
    }
}

/// The exact byte layout an on-chain verifier reads from calldata: public
/// input, then proof bytes, then the accumulator.
pub open spec fn spec_calldata(v: ProofView) -> Seq<u8> {
    v.instances.subrange(ACC_BYTES as int, v.instances.len() as int) + v.proof
        + v.instances.subrange(0, ACC_BYTES as int)
}

impl BatchProof {
    /// Re-encodes an aggregation-layer artifact into the batch layout.
    /// The caller owes an artifact whose instances are exactly one column
    /// of `ACC_LEN + PI_LEN` field elements; passing another layer's proof
    /// is a contract violation, not a recoverable error.
    pub fn encode(artifact: Proof) -> (r: BatchProof)
        requires
            encodable(artifact@),
        ensures
            r@ == spec_encode(artifact@),
    {
        let ghost v0 = artifact@;
        let Proof { proof: mut p, instances: mut ins, vk } = artifact;
        let pi = ins.split_off(ACC_BYTES);
        p.append(&mut ins);
        let r = BatchProof { raw: Proof { proof: p, instances: pi, vk } };
        proof {
            assert(r@ =~= spec_encode(v0));
        }
        r
    }

    /// Total entry to `encode`: `Some` exactly on encodable artifacts.
    pub fn try_encode(artifact: Proof) -> (r: Option<BatchProof>)
        ensures
            r is Some <==> encodable(artifact@),
            r is Some ==> r->0@ == spec_encode(artifact@),
    {
        if artifact.instances.len() == ACC_BYTES + PI_BYTES {
            Some(Self::encode(artifact))
        } else {
            None
        }
    }

    /// Restores the generic artifact the verifier re-checks: splits the
    /// accumulator off the proof tail and puts it back before the public
    /// input. Fails exactly when the length invariants of the batch layout
    /// do not hold.
    pub fn proof_to_verify(self) -> (r: Result<Proof, ProverError>)
        ensures
            r is Ok <==> decodable(self@),
            r is Ok ==> r->Ok_0@ == spec_decode(self@),
            r is Err ==> r->Err_0 == ProverError::MalformedBatchProof,
    {
        let ghost v0 = self@;
        let BatchProof { raw } = self;
        let Proof { proof: mut p, instances: mut ins, vk } = raw;
        if p.len() <= ACC_BYTES || ins.len() != PI_BYTES {
            return Err(ProverError::MalformedBatchProof);
        }
        let cut = p.len() - ACC_BYTES;
        let mut acc = p.split_off(cut);
        acc.append(&mut ins);
        let out = Proof { proof: p, instances: acc, vk };
        proof {
            assert(out@ =~= spec_decode(v0));
        }
        Ok(out)
    }

    /// The files this batch proof is persisted as under `name`.
    pub fn dump(&self, name: &str) -> (r: ProofFiles)
        ensures
            r.pi_name@ == "pi_"@ + spec_dump_filename(name@) + ".data"@,
            r.pi_data@ == self@.instances,
            r.proof_name@ == "proof_"@ + spec_dump_filename(name@) + ".data"@,
            r.proof_data@ == self@.proof,
            r.vk_name@ == spec_dump_filename(name@) + ".vkey"@,
            r.vk_data@ == self@.vk,
            r.json_name@ == spec_dump_filename(name@) + ".json"@,
    {
        let stem = dump_filename(name);
        let mut pi_name: String = "pi_".to_owned();
        pi_name.append(stem.as_str());
        pi_name.append(".data");
        let mut proof_name: String = "proof_".to_owned();
        proof_name.append(stem.as_str());
        proof_name.append(".data");
        let mut vk_name = stem.clone();
        vk_name.append(".vkey");
        let mut json_name = stem.clone();
        json_name.append(".json");
        ProofFiles {
            pi_name,
            pi_data: copy_bytes(&self.raw.instances),
            proof_name,
            proof_data: copy_bytes(&self.raw.proof),
            vk_name,
            vk_data: copy_bytes(&self.raw.vk),
            json_name,
        }
    }

    /// Debug-only consistency check: recomputes the expected on-chain
    /// calldata from the decoded artifact and holds it byte for byte
    /// against `instances ++ proof` of the batch form. The check is proved
    /// to pass on every decodable batch proof — the two encodings cannot
    /// drift apart — so a run that returns is a run that agreed.
    pub fn assert_calldata(&self) -> (ok: bool)
        requires
            decodable(self@),
        ensures
            ok,
    {
        let cut = self.raw.proof.len() - ACC_BYTES;
        let mut prefix = copy_bytes(&self.raw.proof);
        let mut tail = prefix.split_off(cut);
        let mut expected = copy_bytes(&self.raw.instances);
        expected.append(&mut prefix);
        expected.append(&mut tail);
        let mut result_calldata = copy_bytes(&self.raw.instances);
        let mut all_proof = copy_bytes(&self.raw.proof);
        result_calldata.append(&mut all_proof);
        proof {
            lemma_calldata_consistent(self@);
            assert(expected@ =~= spec_calldata(spec_decode(self@)));
            assert(expected@ =~= result_calldata@);
        }
        let ok = expected == result_calldata;
        proof {
            assert(ok);
        }
        ok
    }
}

/// Undoing the batch transform restores the original artifact byte for byte.
/// The one aggregation-layer input left out is an artifact with empty proof
/// bytes: its batch form has no proof prefix and is not decodable.
pub proof fn lemma_batch_round_trip(v: ProofView)
    requires
        encodable(v),
        v.proof.len() > 0,
    ensures
        decodable(spec_encode(v)),
        spec_decode(spec_encode(v)) == v,
{
    let e = spec_encode(v);
    assert(spec_decode(e).proof =~= v.proof);
    assert(spec_decode(e).instances =~= v.instances);
    assert(spec_decode(e) =~= v);
}

/// The transform is onto the decodable batch layouts: re-encoding a decoded
/// batch artifact gives the batch artifact back byte for byte.
pub proof fn lemma_batch_reencode(v: ProofView)
    requires
        decodable(v),
    ensures
        encodable(spec_decode(v)),
        spec_encode(spec_decode(v)) == v,
{
    let d = spec_decode(v);
    assert(spec_encode(d).proof =~= v.proof);
    assert(spec_encode(d).instances =~= v.instances);
    assert(spec_encode(d) =~= v);
}

/// The calldata recomputed from the decoded artifact is exactly the batch
/// form's `instances ++ proof`: the two encodings can never drift apart.
pub proof fn lemma_calldata_consistent(v: ProofView)
    requires
        decodable(v),
    ensures
        spec_calldata(spec_decode(v)) == v.instances + v.proof,
{
    assert(spec_calldata(spec_decode(v)) =~= v.instances + v.proof);
}

} // verus!
