//! The random source for all stochastic sampling.
//!
//! Every stochastic operation (antialiasing offsets, lens sampling,
//! diffuse/metal/dielectric scattering, light position sampling) draws from
//! an explicit [`Rng`] handed in by the caller, so renders are reproducible
//! under a fixed seed and rows can render on isolated workers. The generator
//! is a fully specified 64-bit linear congruential step; only seeding from
//! the machine's entropy goes through an outside call.

use vstd::prelude::*;
use crate::fixed::{Fx, FX_ONE, fx_add_m, fx_sub_m, fx_mul_m};

verus! {

/// Relies on rand::random: draws one value from the thread-local entropy
/// source; nothing is promised of the value.
pub assume_specification<T>[ rand::random::<T> ]() -> (r: T)
    where
        rand::distributions::Standard: rand::distributions::Distribution<T>,
;

/// Multiplier of the linear congruential step (Knuth's MMIX parameters).
pub const LCG_MUL: u64 = 6364136223846793005;

/// Increment of the linear congruential step.
pub const LCG_INC: u64 = 1442695040888963407;

/// The state reached from `s` by one linear congruential step.
pub open spec fn lcg_next(s: u64) -> u64 {
    (((LCG_MUL as int) * (s as int) + LCG_INC as int) % 0x1_0000_0000_0000_0000) as u64
}

/// Mantissa in [0, 65536) extracted from the high bits of a state.
pub open spec fn unit_m(s: u64) -> int {
    (s >> 48) as int
}

/// The state after three congruential steps.
pub open spec fn lcg_next3(s: u64) -> u64 {
    lcg_next(lcg_next(lcg_next(s)))
}

/// The value `next_range(min, max)` draws when called at state `s`:
/// `min + u * (max - min)` for the unit mantissa of the fresh state.
#[verifier::opaque]
pub open spec fn range_draw_m(s: u64, min: Fx, max: Fx) -> int {
    fx_add_m(min.m as int, fx_mul_m(fx_sub_m(max.m as int, min.m as int), unit_m(lcg_next(s))))
}

/// A deterministic pseudo-random generator.
#[derive(Clone, Copy, Debug, PartialEq, Eq, Structural)]
pub struct Rng {
    pub state: u64,
}

impl Rng {
    /// A generator at a chosen seed, for reproducible renders.
    pub fn new(seed: u64) -> (r: Rng)
        ensures
            r.state == seed,
    {
        Rng { state: seed }
    }

    /// A generator seeded from the machine's entropy source.
    pub fn from_entropy() -> Rng {
        Rng { state: rand::random::<u64>() }
    }

    /// Advances the generator by one congruential step.
    pub fn next_state(&mut self)
        ensures
            final(self).state == lcg_next(old(self).state),
    {
        let a: u128 = LCG_MUL as u128;
        let s: u128 = self.state as u128;
        proof {
            assert(a * s <= 0xffff_ffff_ffff_ffff * 0xffff_ffff_ffff_ffff) by (nonlinear_arith)
                requires
                    a <= 0xffff_ffff_ffff_ffff,
                    s <= 0xffff_ffff_ffff_ffff,
            {}
        }
        let hi: u128 = a * s + (LCG_INC as u128);
        self.state = (hi % 0x1_0000_0000_0000_0000) as u64;
    }

    /// A uniform scalar in [0, 1): the high 16 bits of a fresh state.
    pub fn next_unit(&mut self) -> (r: Fx)
        ensures
            final(self).state == lcg_next(old(self).state),
            r.m == unit_m(final(self).state),
            0 <= r.m < FX_ONE,
    {
        self.next_state();
        let s: u64 = self.state;
        let bits: u64 = s >> 48;
        proof {
            assert(s >> 48 < 0x10000) by (bit_vector);
        }
        Fx { m: bits as i64 }
    }

    /// A uniform scalar in [min, max): `min + u * (max - min)` for a fresh
    /// unit draw `u`. When `min < max` and their distance does not saturate,
    /// the result lies in [min, max).
    pub fn next_range(&mut self, min: Fx, max: Fx) -> (r: Fx)
        ensures
            final(self).state == lcg_next(old(self).state),
            r.m == range_draw_m(old(self).state, min, max),
            min.m <= max.m && max.m - min.m <= i64::MAX ==> min.m <= r.m <= max.m,
            min.m < max.m && max.m - min.m <= i64::MAX ==> r.m < max.m,
    {
        let u: Fx = self.next_unit();
        let width: Fx = max.sub(min);
        let offset: Fx = width.mul(u);
        proof {
            reveal(range_draw_m);
            let w = width.m as int;
            let um = u.m as int;
            if 0 <= w {
                assert(0 <= w * um <= w * 65535) by (nonlinear_arith)
                    requires
                        0 <= w,
                        0 <= um <= 65535,
                {}
                assert(w * 65535 / 65536 < w || w == 0) by (nonlinear_arith)
                    requires
                        0 <= w,
                {}
                crate::fixed::lemma_div_trunc_ordered(w * um, w * 65535, 65536);
            }
        }
        min.add(offset)
    }
}

} // verus!
