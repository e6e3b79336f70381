//! The seedable random-number source injected through the scheduler
//! interface, and the fixed block of random draws consumed by one cell
//! update.
//!
//! All randomness enters the simulation through `SimRng`; the behavior
//! engine itself is a deterministic function of the prior state and the
//! drawn values.

use vstd::prelude::*;
use rand::seq::SliceRandom;
use rand::RngExt;
use rand::SeedableRng;

verus! {

#[verifier::external_type_specification]
#[verifier::external_body]
pub struct ExStdRng(rand::rngs::StdRng);

/// A seedable source of uniform random draws, backed by `rand`'s
/// standard generator.
pub struct SimRng {
    inner: rand::rngs::StdRng,
}

impl SimRng {
    /// Relies on `rand::rngs::StdRng` and `SeedableRng::seed_from_u64`:
    /// constructs the standard generator from a 64-bit seed.
    #[verifier::external_body]
    pub fn from_seed(seed: u64) -> SimRng {
        SimRng { inner: rand::rngs::StdRng::seed_from_u64(seed) }
    }

    /// Relies on `rand::RngExt::random_range`: a uniform draw from
    /// `0..n`, which always lies below `n`.
    #[verifier::external_body]
    pub(crate) fn below(&mut self, n: u32) -> (r: u32)
        requires
            1 <= n,
        ensures
            r < n,
    {
        self.inner.random_range(0..n)
    }

    /// Relies on `rand::seq::SliceRandom::shuffle`: permutes the slice in
    /// place, so the new contents are a rearrangement of the old.
    #[verifier::external_body]
    pub(crate) fn shuffle_cells(&mut self, cells: &mut Vec<(usize, usize)>)
        ensures
            final(cells)@.to_multiset() == old(cells)@.to_multiset(),
    {
        cells.shuffle(&mut self.inner);
    }

    /// A fair coin: a uniform draw from two outcomes.
    pub(crate) fn coin(&mut self) -> bool {
        self.below(2) == 1
    }
}

/// The block of random draws consumed by one cell update. Every draw a
/// cell's rules could need is taken up front, so that the update itself
/// is a deterministic function of the prior state and this block.
#[derive(Clone, Copy)]
pub struct CellDraws {
    /// Left/right tie-break for diagonal density displacement.
    pub swap_coin: bool,
    /// Left/right tie-break for diagonal rise.
    pub rise_coin: bool,
    /// Left/right tie-break for the lateral slide of a blocked fall.
    pub slide_coin: bool,
    /// Flow stay roll, in tenths: below the viscosity means no flow.
    pub flow_stay: u32,
    /// Flow direction tie-break when both sides are open.
    pub flow_dir: bool,
    /// Flow distance roll, in tenths: below 7 takes the maximum reach.
    pub flow_full: u32,
    /// Fallback flow distance, reduced modulo the side's reach.
    pub flow_dist: u32,
    /// Smoke dissipation roll, in tenths: below 1 dissipates.
    pub smoke_fade: u32,
    /// Fire dissipation roll, in tenths: below the isolation-dependent
    /// threshold dissipates.
    pub fire_fade: u32,
    /// Dissipating fire becomes smoke when this roll, in tenths, is below 2.
    pub fire_smoke: u32,
    /// Flicker palette index of a surviving fire particle.
    pub fire_color: u32,
    /// Upward-movement roll of fire, in tenths, against the upward bias.
    pub fire_rise: u32,
    /// Fire up-move direction roll, in tenths: below 3 moves diagonally.
    pub fire_diag: u32,
    /// Diagonal direction of a fire up-move.
    pub fire_diag_coin: bool,
    /// Fire spread roll, in tenths: below 3 attempts to ignite neighbors.
    pub fire_spread: u32,
    /// Per-direction ignition roll, in tenths, for the cell above.
    pub spread_up: u32,
    /// Per-direction ignition roll, in tenths, for the cell up-left.
    pub spread_up_left: u32,
    /// Per-direction ignition roll, in tenths, for the cell up-right.
    pub spread_up_right: u32,
    /// Per-direction ignition roll, in tenths, for the cell to the left.
    pub spread_left: u32,
    /// Per-direction ignition roll, in tenths, for the cell to the right.
    pub spread_right: u32,
}

impl CellDraws {
    /// Every roll lies within its range.
    pub open spec fn wf(self) -> bool {
        &&& self.flow_stay < 10
        &&& self.flow_full < 10
        &&& self.flow_dist < 60
        &&& self.smoke_fade < 10
        &&& self.fire_fade < 10
        &&& self.fire_smoke < 10
        &&& self.fire_color < 4
        &&& self.fire_rise < 10
        &&& self.fire_diag < 10
        &&& self.fire_spread < 10
        &&& self.spread_up < 10
        &&& self.spread_up_left < 10
        &&& self.spread_up_right < 10
        &&& self.spread_left < 10
        &&& self.spread_right < 10
    }

    /// Draws one full block from the source.
    pub fn sample(rng: &mut SimRng) -> (d: CellDraws)
        ensures
            d.wf(),
    {
        CellDraws {
            swap_coin: rng.coin(),
            rise_coin: rng.coin(),
            slide_coin: rng.coin(),
            flow_stay: rng.below(10),
            flow_dir: rng.coin(),
            flow_full: rng.below(10),
            flow_dist: rng.below(60),
            smoke_fade: rng.below(10),
            fire_fade: rng.below(10),
            fire_smoke: rng.below(10),
            fire_color: rng.below(4),
            fire_rise: rng.below(10),
            fire_diag: rng.below(10),
            fire_diag_coin: rng.coin(),
            fire_spread: rng.below(10),
            spread_up: rng.below(10),
            spread_up_left: rng.below(10),
            spread_up_right: rng.below(10),
            spread_left: rng.below(10),
            spread_right: rng.below(10),
        }
    }
}

} // verus!
