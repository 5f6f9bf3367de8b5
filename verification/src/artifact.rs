use vstd::prelude::*;
use vstd::string::StringExecFns;

verus! {

/// Number of field elements in the recursion accumulator of an
/// aggregation-layer proof.
pub const ACC_LEN: usize = 12;

/// Number of application-visible public-input field elements of a layer.
pub const PI_LEN: usize = 32;

/// Canonical fixed-width encoding of one scalar-field element, in bytes.
pub const FE_BYTES: usize = 32;

/// Serialized length of the accumulator.
pub const ACC_BYTES: usize = ACC_LEN * FE_BYTES;

/// Serialized length of the public input.
pub const PI_BYTES: usize = PI_LEN * FE_BYTES;

/// The canonical serializable unit a proof request produces: proof bytes,
/// serialized public instance values, and the verifying key blob. Immutable
/// once constructed; owned by the caller that requested the proof.
#[derive(Debug)]
pub struct Proof {
    pub proof: Vec<u8>,
    pub instances: Vec<u8>,
    pub vk: Vec<u8>,
}

/// The mathematical model of a [`Proof`]: its three byte sequences.
#[verifier::ext_equal]
pub struct ProofView {
    pub proof: Seq<u8>,
    pub instances: Seq<u8>,
    pub vk: Seq<u8>,
}

impl View for Proof {
    type V = ProofView;

    open spec fn view(&self) -> ProofView {
        ProofView { proof: self.proof@, instances: self.instances@, vk: self.vk@ }
    }
}

impl Proof {
    /// How many whole field elements the instance bytes decode to under the
    /// fixed-width encoding.
    pub open spec fn spec_instance_count(self) -> int {
        self@.instances.len() as int / FE_BYTES as int
    }

    /// Executable twin of `spec_instance_count`.
    pub fn instance_count(&self) -> (r: usize)
        ensures
            r == self.spec_instance_count(),
    {
        self.instances.len() / FE_BYTES
    }
}

/// Byte-for-byte copy of a buffer. The library's artifacts are immutable
/// once built, so sharing is by fresh copies with equal views.
pub fn copy_bytes(src: &Vec<u8>) -> (r: Vec<u8>)
    ensures
        r@ == src@,
{
    let mut out: Vec<u8> = Vec::new();
    let mut i: usize = 0;
    while i < src.len()
        invariant
            i <= src.len(),
            out@ == src@.subrange(0, i as int),
        decreases src.len() - i,
    {
        out.push(src[i]);
        proof {
            assert(out@ =~= src@.subrange(0, (i + 1) as int));
        }
        i += 1;
    }
    proof {
        assert(out@ =~= src@);
    }
    out
}

/// Copy of the bytes of `src` from `from` (inclusive) to `to` (exclusive).
pub fn copy_range(src: &Vec<u8>, from: usize, to: usize) -> (r: Vec<u8>)
    requires
        from <= to <= src@.len(),
    ensures
        r@ == src@.subrange(from as int, to as int),
{
    let mut out: Vec<u8> = Vec::new();
    let mut i: usize = from;
    while i < to
        invariant
            from <= i <= to <= src@.len(),
            out@ == src@.subrange(from as int, i as int),
        decreases to - i,
    {
        out.push(src[i]);
        proof {
            assert(out@ =~= src@.subrange(from as int, (i + 1) as int));
        }
        i += 1;
    }
    out
}

/// The stem of every file a named proof identity is persisted under.
pub open spec fn spec_dump_filename(name: Seq<char>) -> Seq<char> {
    "batch_"@ + name
}

/// Builds the file stem for a named batch proof.
pub fn dump_filename(name: &str) -> (r: String)
    ensures
        r@ == spec_dump_filename(name@),
{
    let mut s: String = "batch_".to_owned();
    s.append(name);
    s
}

} // verus!
