use vstd::prelude::*;
use vstd::bytes::{
    lemma_auto_spec_u32_to_from_le_bytes, spec_u32_from_le_bytes, spec_u32_to_le_bytes,
    u32_from_le_bytes, u32_to_le_bytes,
};
use crate::artifact::{copy_bytes, copy_range};
use crate::backend::ProvingBackend;
use crate::errors::ProverError;

verus! {

/// One structured-reference-string entry: the public setup data for circuits
/// of up to `2^degree` rows. Created once (expensive) and cached; immutable
/// and shared read-only thereafter.
#[derive(Debug)]
pub struct Parameters {
    pub degree: u32,
    pub srs: Vec<u8>,
}

/// The mathematical model of a [`Parameters`] entry.
#[verifier::ext_equal]
pub struct ParamsView {
    pub degree: u32,
    pub srs: Seq<u8>,
}

impl View for Parameters {
    type V = ParamsView;

    open spec fn view(&self) -> ParamsView {
        ParamsView { degree: self.degree, srs: self.srs@ }
    }
}

impl Parameters {
    /// A fresh entry with the same model: parameters are shared by copying,
    /// never mutated.
    pub fn duplicate(&self) -> (r: Parameters)
        ensures
            r@ == self@,
    {
        let r = Parameters { degree: self.degree, srs: copy_bytes(&self.srs) };
        proof {
            assert(r@ =~= self@);
        }
        r
    }
}

/// The cache-file form of a parameter entry: four little-endian degree
/// bytes, then the raw structured-reference-string bytes.
pub open spec fn spec_params_bytes(v: ParamsView) -> Seq<u8> {
    spec_u32_to_le_bytes(v.degree) + v.srs
}

impl Parameters {
    /// Serializes this entry into its cache-file form.
    pub fn to_bytes(&self) -> (r: Vec<u8>)
        ensures
            r@ == spec_params_bytes(self@),
    {
        let mut out = u32_to_le_bytes(self.degree);
        let mut srs = copy_bytes(&self.srs);
        out.append(&mut srs);
        out
    }

    /// Decodes a cache-file image; `None` exactly when even the degree
    /// header is missing.
    pub fn from_bytes(bytes: &Vec<u8>) -> (r: Option<Parameters>)
        ensures
            r is Some <==> bytes@.len() >= 4,
            r is Some ==> r->0@.degree == spec_u32_from_le_bytes(bytes@.subrange(0, 4))
                && r->0@.srs == bytes@.subrange(4, bytes@.len() as int),
    {
        if bytes.len() < 4 {
            return None;
        }
        let header = copy_range(bytes, 0, 4);
        let degree = u32_from_le_bytes(header.as_slice());
        let srs = copy_range(bytes, 4, bytes.len());
        Some(Parameters { degree, srs })
    }
}

/// A serialized parameter entry decodes back to itself: the cache-file
/// framing loses nothing.
pub proof fn lemma_params_bytes_round_trip(v: ParamsView)
    ensures
        spec_params_bytes(v).len() >= 4,
        spec_u32_from_le_bytes(spec_params_bytes(v).subrange(0, 4)) == v.degree,
        spec_params_bytes(v).subrange(4, spec_params_bytes(v).len() as int) == v.srs,
{
    lemma_auto_spec_u32_to_from_le_bytes();
    assert(spec_params_bytes(v).subrange(0, 4) =~= spec_u32_to_le_bytes(v.degree));
    assert(spec_params_bytes(v).subrange(4, spec_params_bytes(v).len() as int) =~= v.srs);
}

/// Every offered cache-file image carries the degree requested at its
/// position; an absent image asks for generation and can never be at fault.
pub open spec fn disk_matches(disk: Seq<Option<Parameters>>, degrees: Seq<u32>) -> bool {
    forall|i: int|
        0 <= i < disk.len() ==> ((#[trigger] disk[i]) is Some ==> disk[i]->0@.degree == degrees[i])
}

/// Loads or creates per-degree parameters and caches them keyed by degree.
/// The in-memory cache never holds two entries of one degree, so whatever a
/// degree resolved to once is what it resolves to from then on.
pub struct ParameterStore {
    entries: Vec<Parameters>,
}

impl ParameterStore {
    /// The models of the cached entries, in insertion order.
    pub closed spec fn cache(self) -> Seq<ParamsView> {
        self.entries@.map_values(|p: Parameters| p@)
    }

    /// At most one cache entry per degree.
    pub open spec fn wf(self) -> bool {
        forall|i: int, j: int|
            0 <= i < j < self.cache().len() ==> #[trigger] self.cache()[i].degree
                != #[trigger] self.cache()[j].degree
    }

    /// Some entry of this degree is cached.
    pub open spec fn spec_has(self, degree: u32) -> bool {
        exists|i: int| 0 <= i < self.cache().len() && #[trigger] self.cache()[i].degree == degree
    }

    /// `v` is the cached entry of this degree.
    pub open spec fn spec_holds(self, degree: u32, v: ParamsView) -> bool {
        v.degree == degree && exists|i: int|
            0 <= i < self.cache().len() && #[trigger] self.cache()[i] == v
    }

    /// The one entry a well-formed store resolves `degree` to, where it has
    /// one.
    pub open spec fn spec_params(self, degree: u32) -> ParamsView {
        choose|pv: ParamsView| self.spec_holds(degree, pv)
    }

    /// An empty store.
    pub fn new() -> (r: Self)
        ensures
            r.wf(),
            r.cache().len() == 0,
    {
        ParameterStore { entries: Vec::new() }
    }

    /// The position of the cached entry of `degree`, if any.
    fn find(&self, degree: u32) -> (r: Option<usize>)
        ensures
            match r {
                Some(i) => i < self.cache().len() && self.cache()[i as int].degree == degree,
                None => forall|i: int|
                    0 <= i < self.cache().len() ==> #[trigger] self.cache()[i].degree != degree,
            },
    {
        let mut i: usize = 0;
        while i < self.entries.len()
            invariant
                i <= self.entries.len(),
                forall|j: int| 0 <= j < i ==> #[trigger] self.cache()[j].degree != degree,
            decreases self.entries.len() - i,
        {
            if self.entries[i].degree == degree {
                return Some(i);
            }
            i += 1;
        }
        None
    }

    /// The cached parameters of `degree`, if the store holds them.
    pub fn get(&self, degree: u32) -> (r: Option<Parameters>)
        ensures
            r is Some <==> self.spec_has(degree),
            r is Some ==> self.spec_holds(degree, r->0@),
    {
        match self.find(degree) {
            Some(i) => Some(self.entries[i].duplicate()),
            None => None,
        }
    }

    /// Resolves the parameters of `degree`, in this order: the in-memory
    /// cache; else `disk`, the decoded content of the degree's cache file,
    /// validated against the claimed degree; else a fresh generation by the
    /// backend, which is then cached. A cache hit changes nothing and
    /// generates nothing; a file of the wrong degree is a fatal setup error.
    pub fn load_or_create<B: ProvingBackend>(
        &mut self,
        backend: &mut B,
        degree: u32,
        disk: Option<Parameters>,
    ) -> (r: Result<Parameters, ProverError>)
        requires
            old(self).wf(),
        ensures
            final(self).wf(),
            forall|d: u32, v: ParamsView|
                old(self).spec_holds(d, v) ==> #[trigger] final(self).spec_holds(d, v),
            old(self).spec_has(degree) ==> *final(self) == *old(self) && *final(backend)
                == *old(backend) && r is Ok && old(self).spec_holds(degree, r->Ok_0@),
            !old(self).spec_has(degree) && disk is Some && disk->0@.degree == degree ==> r is Ok
                && r->Ok_0@ == disk->0@ && *final(backend) == *old(backend),
            !old(self).spec_has(degree) && disk is Some && disk->0@.degree != degree ==> r is Err
                && *final(self) == *old(self) && *final(backend) == *old(backend),
            !old(self).spec_has(degree) && disk is None ==> r is Ok,
            r is Ok ==> r->Ok_0@.degree == degree && final(self).spec_holds(degree, r->Ok_0@),
            r is Err ==> r->Err_0 == ProverError::ParamsIo,
            forall|d: u32, v: ParamsView|
                #[trigger] final(self).spec_holds(d, v) ==> old(self).spec_holds(d, v) || (d
                    == degree && r is Ok && v == r->Ok_0@),
    {
        let found = self.find(degree);
        match found {
            Some(i) => {
                let p = self.entries[i].duplicate();
                proof {
                    assert(self.spec_holds(degree, p@));
                }
                Ok(p)
            },
            None => {
                let fresh = match disk {
                    Some(p) => {
                        if p.degree != degree {
                            return Err(ProverError::ParamsIo);
                        }
                        p
                    },
                    None => backend.setup(degree),
                };
                let ghost pre = self.cache();
                let out = fresh.duplicate();
                self.entries.push(fresh);
                proof {
                    assert(self.cache() =~= pre.push(out@));
                    assert(self.cache()[pre.len() as int] == out@);
                    assert(self.spec_holds(degree, out@));
                    assert forall|d: u32, v: ParamsView|
                        old(self).spec_holds(d, v) implies #[trigger] self.spec_holds(d, v) by {
                        let k = choose|k: int| 0 <= k < pre.len() && pre[k] == v;
                        assert(self.cache()[k] == v);
                    }
                    assert forall|d: u32, v: ParamsView|
                        #[trigger] self.spec_holds(d, v) implies old(self).spec_holds(d, v) || (d
                        == degree && v == out@) by {
                        let k = choose|k: int|
                            0 <= k < self.cache().len() && #[trigger] self.cache()[k] == v;
                        if k < pre.len() {
                            assert(old(self).cache()[k] == v);
                        } else {
                            assert(v == out@);
                        }
                    }
                }
                Ok(out)
            },
        }
    }

    /// Resolves every degree in `degrees` in order, one cache-file content
    /// per degree, and returns the parameters in matching order. Degrees may
    /// repeat: later occurrences are served from the cache, so no degree is
    /// generated or adopted twice. Success is owed whenever every offered
    /// file image carries its requested degree.
    pub fn load_params_map<B: ProvingBackend>(
        &mut self,
        backend: &mut B,
        degrees: &Vec<u32>,
        disk: &Vec<Option<Parameters>>,
    ) -> (r: Result<Vec<Parameters>, ProverError>)
        requires
            old(self).wf(),
            disk@.len() == degrees@.len(),
        ensures
            final(self).wf(),
            forall|d: u32, v: ParamsView|
                old(self).spec_holds(d, v) ==> #[trigger] final(self).spec_holds(d, v),
            disk_matches(disk@, degrees@) ==> r is Ok,
            r is Err ==> !disk_matches(disk@, degrees@),
            r is Ok ==> r->Ok_0@.len() == degrees@.len() && forall|i: int|
                0 <= i < degrees@.len() ==> (#[trigger] r->Ok_0@[i])@.degree == degrees@[i]
                    && final(self).spec_holds(degrees@[i], r->Ok_0@[i]@),
            r is Err ==> r->Err_0 == ProverError::ParamsIo,
    {
        let mut out: Vec<Parameters> = Vec::new();
        let mut i: usize = 0;
        while i < degrees.len()
            invariant
                i <= degrees.len(),
                disk@.len() == degrees@.len(),
                self.wf(),
                forall|d: u32, v: ParamsView|
                    old(self).spec_holds(d, v) ==> #[trigger] self.spec_holds(d, v),
                out@.len() == i,
                forall|j: int|
                    0 <= j < i ==> (#[trigger] out@[j])@.degree == degrees@[j]
                        && self.spec_holds(degrees@[j], out@[j]@),
            decreases degrees.len() - i,
        {
            let ghost mid = *self;
            let d = match &disk[i] {
                Some(p) => Some(p.duplicate()),
                None => None,
            };
            let p = match self.load_or_create(backend, degrees[i], d) {
                Ok(p) => p,
                Err(_) => {
                    proof {
                        assert((disk@[i as int]) is Some && disk@[i as int]->0@.degree
                            != degrees@[i as int]);
                    }
                    return Err(ProverError::ParamsIo);
                },
            };
            proof {
                assert forall|j: int|
                    0 <= j < i implies (#[trigger] out@[j])@.degree == degrees@[j]
                    && self.spec_holds(degrees@[j], out@[j]@) by {
                    assert(mid.spec_holds(degrees@[j], out@[j]@));
                }
            }
            out.push(p);
            i += 1;
        }
        Ok(out)
    }
}

/// In a well-formed store an available degree resolves to `spec_params`,
/// and whatever the store holds for that degree is that entry.
pub proof fn lemma_spec_params(s: ParameterStore, degree: u32)
    requires
        s.wf(),
        s.spec_has(degree),
    ensures
        s.spec_holds(degree, s.spec_params(degree)),
        forall|v: ParamsView| s.spec_holds(degree, v) ==> v == s.spec_params(degree),
{
    let i = choose|i: int| 0 <= i < s.cache().len() && s.cache()[i].degree == degree;
    assert(s.spec_holds(degree, s.cache()[i]));
    assert(s.spec_holds(degree, s.spec_params(degree)));
    assert forall|v: ParamsView| s.spec_holds(degree, v) implies v == s.spec_params(degree) by {
        lemma_params_unique(s, degree, v, s.spec_params(degree));
    }
}

/// One degree resolves to one parameter set: a well-formed store that holds
/// `v1` and `v2` for the same degree holds them as the same entry, so
/// repeated lookups and loads of a degree agree.
pub proof fn lemma_params_unique(s: ParameterStore, degree: u32, v1: ParamsView, v2: ParamsView)
    requires
        s.wf(),
        s.spec_holds(degree, v1),
        s.spec_holds(degree, v2),
    ensures
        v1 == v2,
{
    let i = choose|i: int| 0 <= i < s.cache().len() && s.cache()[i] == v1;
    let j = choose|j: int| 0 <= j < s.cache().len() && s.cache()[j] == v2;
    if i != j {
        assert(s.cache()[i].degree != s.cache()[j].degree);
    }
}

} // verus!
