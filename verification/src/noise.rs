//! The seeded stream of pseudo-random fractions.
//!
//! The numbers come from `fastrand`. The stream keeps the generator's state
//! as a plain `u64` and rebuilds the generator for each draw, so that equal
//! states give equal draws by construction.

use vstd::prelude::*;
use crate::fixed::ONE;

verus! {

/// The 32 bits that a `fastrand` generator holding `state` hands out next.
pub uninterp spec fn rng_output(state: u64) -> u32;

/// The state in which that draw leaves the generator.
pub uninterp spec fn rng_successor(state: u64) -> u64;

/// One draw: `fastrand::Rng::with_seed(state)` makes a generator that holds
/// exactly `state`, `Rng::u32(..)` over the full range takes the low half of
/// one step of the generator, and `Rng::get_seed` reads the state that the
/// step left. Both results depend on `state` alone; nothing is claimed of
/// them beyond that.
#[verifier::external_body]
fn draw(state: u64) -> (r: (u32, u64))
    ensures
        r.0 == rng_output(state),
        r.1 == rng_successor(state),
{
    let rng = fastrand::Rng::with_seed(state);
    let bits: u32 = rng.u32(..);
    (bits, rng.get_seed())
}

/// The state of a generator `n` draws after `state`.
pub open spec fn advance(state: u64, n: int) -> u64
    decreases n,
{
    if n <= 0 {
        state
    } else {
        rng_successor(advance(state, n - 1))
    }
}

/// The 23 leading bits of `bits`: a fraction of one in units of `2^-23`.
pub open spec fn mantissa(bits: u32) -> int {
    bits as int / 512
}

/// The fraction of one that `bits` stands for, rounded down to a millionth.
pub open spec fn fraction(bits: u32) -> i64 {
    (mantissa(bits) * ONE / 0x80_0000) as i64
}

/// A seeded stream of fractions in `[0, 1)`.
#[derive(Clone, Copy, Debug)]
pub struct PSNG {
    state: u64,
    z: u32,
}

impl PSNG {
    /// The generator state from which the next draw is made.
    pub closed spec fn state(&self) -> u64 {
        self.state
    }

    /// The first draw of the stream, scaled to 32 bits.
    pub closed spec fn z(&self) -> u32 {
        self.z
    }

    /// The stream for `seed`. Its first draw is taken at once and kept.
    pub fn new(seed: u64) -> (r: Self)
        ensures
            r.state() == rng_successor(seed),
            r.z() == mantissa(rng_output(seed)) * 512,
    {
        let (bits, state) = draw(seed);
        assert(bits >> 9 == bits / 512) by (bit_vector);
        Self { state, z: (bits >> 9) * 512 }
    }

    /// The next fraction of the stream.
    pub fn next(&mut self) -> (r: i64)
        ensures
            r == fraction(rng_output(old(self).state())),
            0 <= r < ONE,
            final(self).state() == rng_successor(old(self).state()),
            final(self).z() == old(self).z(),
    {
        let (bits, state) = draw(self.state);
        self.state = state;
        assert(bits >> 9 == bits / 512) by (bit_vector);
        let m: u64 = (bits >> 9) as u64;
        (m * 1_000_000 / 0x80_0000) as i64
    }
}

} // verus!
