use vstd::prelude::*;

verus! {

/// The byte stream a xorshift generator produces from a 16-byte seed: the
/// first `n` bytes drawn after seeding. The algorithm is a pure function of
/// the seed, so the stream depends on nothing but these arguments.
pub uninterp spec fn xorshift_prefix(seed: Seq<u8>, n: nat) -> Seq<u8>;

/// Relies on rand_xorshift's `XorShiftRng`: `SeedableRng::from_seed` followed
/// by one `RngCore::fill_bytes` of `n` bytes. Both are deterministic: an
/// all-zero seed is replaced by a fixed preset rather than rejected, and the
/// fill walks the xorshift word stream, so the result is a function of the
/// seed and the length alone.
#[verifier::external_body]
fn xorshift_bytes(seed: &[u8; 16], n: usize) -> (r: Vec<u8>)
    ensures
        r@.len() == n,
        r@ == xorshift_prefix(seed@, n as nat),
{
    let mut rng = <rand_xorshift::XorShiftRng as rand_core::SeedableRng>::from_seed(*seed);
    let mut buf = vec![0u8; n];
    rand_core::RngCore::fill_bytes(&mut rng, &mut buf);
    buf
}

/// A deterministic, seedable source of the blinding randomness the proving
/// backend consumes. A fixed seed yields a fully reproducible sequence of
/// draws; each proving session owns its source exclusively and never shares
/// it across concurrent proof generations.
pub struct RandomnessSource {
    seed: [u8; 16],
    drawn: usize,
}

impl RandomnessSource {
    /// The seed this source was constructed from.
    pub closed spec fn spec_seed(self) -> Seq<u8> {
        self.seed@
    }

    /// How many bytes of the stream have been handed out so far.
    pub closed spec fn spec_drawn(self) -> nat {
        self.drawn as nat
    }

    /// The bytes a draw of `n` fresh bytes from this source yields.
    pub closed spec fn spec_draw(self, n: nat) -> Seq<u8> {
        xorshift_prefix(self.spec_seed(), self.spec_drawn() + n).subrange(
            self.spec_drawn() as int,
            (self.spec_drawn() + n) as int,
        )
    }

    /// Seeds a fresh source. Reproducible runs pass a fixed seed; production
    /// callers pass process entropy gathered outside the core.
    pub fn from_seed(seed: [u8; 16]) -> (r: Self)
        ensures
            r.spec_seed() == seed@,
            r.spec_drawn() == 0,
    {
        RandomnessSource { seed, drawn: 0 }
    }

    /// How many bytes this source has handed out.
    pub fn drawn(&self) -> (r: usize)
        ensures
            r == self.spec_drawn(),
    {
        self.drawn
    }

    /// Hands out the next `n` bytes of the stream. Every draw consumes its
    /// bytes: no two draws from one source overlap.
    pub fn draw(&mut self, n: usize) -> (r: Vec<u8>)
        requires
            old(self).spec_drawn() + n <= usize::MAX,
        ensures
            r@.len() == n,
            r@ == old(self).spec_draw(n as nat),
            final(self).spec_seed() == old(self).spec_seed(),
            final(self).spec_drawn() == old(self).spec_drawn() + n,
    {
        let total = self.drawn + n;
        let mut buf = xorshift_bytes(&self.seed, total);
        let r = buf.split_off(self.drawn);
        self.drawn = total;
        r
    }
}

/// Reproducibility: two sources seeded alike and at the same position hand
/// out identical bytes for equal draws, in every process and on every run.
pub proof fn lemma_draws_reproducible(a: RandomnessSource, b: RandomnessSource, n: nat)
    requires
        a.spec_seed() == b.spec_seed(),
        a.spec_drawn() == b.spec_drawn(),
    ensures
        a.spec_draw(n) == b.spec_draw(n),
{
}

} // verus!
