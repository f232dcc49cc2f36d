//! Seeded random numbers for setting up combats: a SplitMix64 stream per use.
use vstd::prelude::*;

verus! {

/// The increment of the stream's state.
pub open spec fn golden() -> u64 {
    0x9E37_79B9_7F4A_7C15u64
}

/// The state after one step.
pub open spec fn spec_step(state: u64) -> u64 {
    vstd::wrapping::u64_specs::wrapping_add(state, golden())
}

/// The number a stream in the given (already stepped) state hands out.
pub open spec fn spec_mix(z: u64) -> u64 {
    let z1 = vstd::wrapping::u64_specs::wrapping_mul(z ^ (z >> 30u64), 0xBF58_476D_1CE4_E5B9u64);
    let z2 = vstd::wrapping::u64_specs::wrapping_mul(z1 ^ (z1 >> 27u64), 0x94D0_49BB_1331_11EBu64);
    z2 ^ (z2 >> 31u64)
}

/// One stream of random numbers.
#[derive(Clone, Copy, Debug, PartialEq, Eq, Structural)]
pub struct Rng {
    pub state: u64,
}

impl Rng {
    pub fn seeded(seed: u64) -> (r: Rng)
        ensures
            r.state == seed,
    {
        Rng { state: seed }
    }

    /// The next number of the stream.
    pub fn next_u64(&mut self) -> (r: u64)
        ensures
            final(self).state == spec_step(old(self).state),
            r == spec_mix(final(self).state),
    {
        self.state = self.state.wrapping_add(0x9E37_79B9_7F4A_7C15u64);
        let z = self.state;
        let z1 = (z ^ (z >> 30u64)).wrapping_mul(0xBF58_476D_1CE4_E5B9u64);
        let z2 = (z1 ^ (z1 >> 27u64)).wrapping_mul(0x94D0_49BB_1331_11EBu64);
        z2 ^ (z2 >> 31u64)
    }

    /// An index below `n`; `None` when `n` is 0, and then the stream does not move.
    pub fn next_usize(&mut self, n: usize) -> (r: Option<usize>)
        ensures
            n == 0 ==> r is None && final(self).state == old(self).state,
            n > 0 ==> final(self).state == spec_step(old(self).state)
                && r == Some((spec_mix(spec_step(old(self).state)) % (n as u64)) as usize),
    {
        if n == 0 {
            return None;
        }
        let x = self.next_u64();
        Some((x % (n as u64)) as usize)
    }
}

/// The streams of one run, one per use.
#[derive(Clone, Copy, Debug, PartialEq, Eq, Structural)]
pub struct RngSet {
    pub combat_card_generation: Rng,
    pub shuffle: Rng,
}

/// Keeps the streams of one seed apart.
pub open spec fn card_generation_salt() -> u64 {
    0x5EED_CA7D_0000_0001u64
}

pub open spec fn shuffle_salt() -> u64 {
    0x5EED_5AFF_0000_0002u64
}

impl RngSet {
    /// The streams of a seed.
    pub open spec fn spec_seeded(seed: u64) -> RngSet {
        RngSet {
            combat_card_generation: Rng { state: seed ^ card_generation_salt() },
            shuffle: Rng { state: seed ^ shuffle_salt() },
        }
    }

    pub fn seeded(seed: u64) -> (r: RngSet)
        ensures
            r == RngSet::spec_seeded(seed),
    {
        RngSet {
            combat_card_generation: Rng { state: seed ^ 0x5EED_CA7D_0000_0001u64 },
            shuffle: Rng { state: seed ^ 0x5EED_5AFF_0000_0002u64 },
        }
    }
}

} // verus!
