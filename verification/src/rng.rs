//! The deterministic 64-bit pseudo-random stream: a WyRand-style
//! generator whose whole output sequence is a function of its seed.

use vstd::prelude::*;

verus! {

/// The fixed odd increment added to the state on every draw.
pub const WY_INCREMENT: u64 = 0xa0761d6478bd642f;

/// The state transition: one draw advances the state by the fixed odd
/// increment, wrapping on overflow.
pub open spec fn wy_step(s: u64) -> u64 {
    vstd::wrapping::u64_specs::wrapping_add(s, WY_INCREMENT)
}

/// The output derived from an (already advanced) state `t`: XOR-fold `t`
/// with its high half, multiply by `t` (wrapping), and XOR-fold again.
pub open spec fn wy_out(t: u64) -> u64 {
    let s = t ^ (t >> 32);
    vstd::wrapping::u64_specs::wrapping_mul(s, t) ^ (s >> 32)
}

/// The state after `n` draws from state `s`.
pub open spec fn wy_iter(s: u64, n: nat) -> u64
    decreases n,
{
    if n == 0 {
        s
    } else {
        wy_step(wy_iter(s, (n - 1) as nat))
    }
}

/// Zero draws leave the state unchanged.
pub proof fn lemma_wy_iter_zero(s: u64)
    ensures
        wy_iter(s, 0) == s,
{
}

/// One more draw steps the state once more.
pub proof fn lemma_wy_iter_succ(s: u64, n: nat)
    ensures
        wy_iter(s, n + 1) == wy_step(wy_iter(s, n)),
{
}

/// The `i`-th (counting from 0) 64-bit output of a generator seeded with
/// `seed`: the whole stream is a function of the seed alone.
pub open spec fn stream_out(seed: u64, i: nat) -> u64 {
    wy_out(wy_iter(seed, i + 1))
}

/// The numerator of the unit draw derived from an advanced state `t`: the
/// top 53 bits of the output, standing for the value `unit_bits_of(t) / 2^53`
/// in the half-open unit interval.
pub open spec fn unit_bits_of(t: u64) -> u64 {
    wy_out(t) >> 11
}

/// A unit-draw numerator occupies 53 bits.
pub broadcast proof fn lemma_unit_bits_bound(t: u64)
    ensures
        #[trigger] unit_bits_of(t) < 0x20000000000000,
{
    let x = wy_out(t);
    assert(x >> 11 < 0x20000000000000) by (bit_vector);
}

/// A fast, non-cryptographic random number generator based on the WyRand
/// algorithm, suitable for randomized testing where cryptographic strength
/// is not required.
///
/// The generator owns a single 64-bit state, mutated in place on every
/// draw; every operation is a pure state transition, so a fixed seed
/// reproduces the same output sequence.
#[derive(Clone, Copy, Debug)]
pub struct Rng {
    seed: u64,
}

impl Rng {
    /// The current 64-bit state of the generator.
    pub closed spec fn state(&self) -> u64 {
        self.seed
    }

    /// Creates a new generator with a fixed seed, for deterministic
    /// testing or reproducible simulations.
    pub fn from_seed(seed: u64) -> (r: Self)
        ensures
            r.state() == seed,
    {
        Self { seed }
    }

    /// Generates the next random `u64`: the core draw that drives all
    /// other random generation. Advances the state by one step and
    /// returns the mixed output of the new state.
    pub fn next_u64(&mut self) -> (r: u64)
        ensures
            final(self).state() == wy_step(old(self).state()),
            r == wy_out(wy_step(old(self).state())),
            r == stream_out(old(self).state(), 0),
    {
        proof {
            lemma_wy_iter_zero(self.state());
            lemma_wy_iter_succ(self.state(), 0);
        }
        self.seed = self.seed.wrapping_add(WY_INCREMENT);
        let t = self.seed;
        let s = t ^ (t >> 32);
        s.wrapping_mul(t) ^ (s >> 32)
    }

    /// Draws the 53-bit numerator of a unit value: the result stands for
    /// `r / 2^53`, a value in the half-open unit interval.
    pub fn next_unit_bits(&mut self) -> (r: u64)
        ensures
            final(self).state() == wy_step(old(self).state()),
            r == unit_bits_of(wy_step(old(self).state())),
            r < 0x20000000000000,
    {
        proof {
            lemma_unit_bits_bound(wy_step(self.state()));
        }
        let bits = self.next_u64();
        bits >> 11
    }
}

/// The output stream of a generator is a function of the seed alone: two
/// generators created from equal seeds produce identical output sequences.
pub proof fn lemma_seed_determines_stream(s1: u64, s2: u64, i: nat)
    requires
        s1 == s2,
    ensures
        stream_out(s1, i) == stream_out(s2, i),
{
}

/// Reproduces the `n`-th (counting from 0) draw of a fresh generator
/// seeded with `seed`, connecting the executable generator to the
/// abstract stream.
pub fn nth_draw(seed: u64, n: usize) -> (r: u64)
    ensures
        r == stream_out(seed, n as nat),
{
    let mut rng = Rng::from_seed(seed);
    let mut i: usize = 0;
    proof {
        lemma_wy_iter_zero(seed);
        lemma_wy_iter_succ(seed, 0);
    }
    let mut out = rng.next_u64();
    while i < n
        invariant
            i <= n,
            rng.state() == wy_iter(seed, (i + 1) as nat),
            out == stream_out(seed, i as nat),
        decreases n - i,
    {
        proof {
            lemma_wy_iter_succ(seed, (i + 1) as nat);
        }
        out = rng.next_u64();
        i = i + 1;
    }
    out
}

} // verus!
