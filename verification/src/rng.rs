use vstd::prelude::*;

verus! {

/// A uniform random source, the one capability both engines draw from.
/// Callers may substitute any implementation — in particular a seeded,
/// deterministic one — without changing the structural algorithms.
pub trait RandomSource {
    /// Draw the next value, uniformly distributed below `bound`.
    fn next_below(&mut self, bound: u64) -> (r: u64)
        requires
            bound >= 1,
        ensures
            r < bound,
    ;
}

/// Draw uniformly from the half-open range `[lo, hi)`; when the range is
/// empty, return `lo` itself.
pub fn draw_range<R: RandomSource>(rng: &mut R, lo: i64, hi: i64) -> (r: i64)
    requires
        -1_000_000_000_000_000 <= lo <= hi <= 1_000_000_000_000_000,
    ensures
        lo <= r <= hi,
        lo < hi ==> r < hi,
        lo == hi ==> r == lo,
{
    if lo < hi {
        let off: u64 = rng.next_below((hi - lo) as u64);
        lo + (off as i64)
    } else {
        lo
    }
}

/// Draw a uniformly random angle: a whole number of degrees in `[0, 360)`.
pub fn draw_angle<R: RandomSource>(rng: &mut R) -> (a: u64)
    ensures
        a < 360,
{
    rng.next_below(360)
}

/// A small deterministic generator (an LCG with an output mix), fully
/// verified; seeding it fixes the whole draw sequence, which makes every
/// algorithm here reproducible under test.
pub struct SplitMix64 {
    state: u64,
}

impl SplitMix64 {
    pub fn new(seed: u64) -> (s: Self) {
        SplitMix64 { state: seed }
    }
}

impl RandomSource for SplitMix64 {
    fn next_below(&mut self, bound: u64) -> (r: u64) {
        self.state = self.state.wrapping_mul(6364136223846793005).wrapping_add(
            1442695040888963407,
        );
        let mixed: u64 = (self.state ^ (self.state >> 33)).wrapping_mul(
            0xff51afd7ed558ccd,
        );
        let folded: u64 = mixed ^ (mixed >> 29);
        proof {
            vstd::arithmetic::div_mod::lemma_mod_bound(folded as int, bound as int);
        }
        folded % bound
    }
}

/// The outside crate's standard generator (`rand::rngs::StdRng`), declared
/// so that it can be held in a field; Verus sees nothing of its inside.
#[verifier::external_type_specification]
#[verifier::external_body]
pub struct ExStdRng(rand::rngs::StdRng);

/// Relies on `rand::SeedableRng::seed_from_u64`, which builds a generator
/// from a word of seed material. Nothing is promised of the state it
/// produces.
#[verifier::external_body]
fn std_rng_from_seed(seed: u64) -> rand::rngs::StdRng {
    <rand::rngs::StdRng as rand::SeedableRng>::seed_from_u64(seed)
}

/// Relies on `rand::RngExt::random_range` over `0..bound`: it returns a
/// value of the half-open range, and panics only on an empty range, which
/// `bound >= 1` rules out.
#[verifier::external_body]
fn std_rng_below(rng: &mut rand::rngs::StdRng, bound: u64) -> (r: u64)
    requires
        bound >= 1,
    ensures
        r < bound,
{
    rand::RngExt::random_range(rng, 0..bound)
}

/// A random source backed by the `rand` crate's standard generator.
pub struct StdRandom {
    inner: rand::rngs::StdRng,
}

impl StdRandom {
    pub fn from_seed(seed: u64) -> (s: Self) {
        StdRandom { inner: std_rng_from_seed(seed) }
    }
}

impl RandomSource for StdRandom {
    fn next_below(&mut self, bound: u64) -> (r: u64) {
        std_rng_below(&mut self.inner, bound)
    }
}

} // verus!
