//! The tick counter that paces particle emission.

use vstd::prelude::*;
use crate::material::TileType;
use crate::voxel::Particle;

verus! {

/// Emission happens on every tenth tick.
pub const EMISSION_PERIOD: u32 = 10;

/// The counter after one more tick; it wraps to zero past `u32::MAX`.
pub open spec fn next_count(c: u32) -> u32 {
    if c == u32::MAX {
        0
    } else {
        (c + 1) as u32
    }
}

/// The counter after `k` ticks starting from `start`.
pub open spec fn count_after(start: u32, k: nat) -> u32
    decreases k,
{
    if k == 0 {
        start
    } else {
        next_count(count_after(start, (k - 1) as nat))
    }
}

/// A tick with counter value `c` is a firing tick.
pub open spec fn fires(c: u32, period: u32) -> bool {
    c % period == 0
}

/// Counts ticks and says on which of them particles are emitted.
pub struct Emitter {
    period: u32,
    counter: u32,
}

impl Emitter {
    pub closed spec fn period_spec(&self) -> u32 {
        self.period
    }

    pub closed spec fn counter_spec(&self) -> u32 {
        self.counter
    }

    /// An emitter that fires every `period` ticks, counter at zero.
    pub fn new(period: u32) -> (r: Emitter)
        requires
            period > 0,
        ensures
            r.period_spec() == period,
            r.counter_spec() == 0,
    {
        Emitter { period, counter: 0 }
    }

    pub fn counter(&self) -> (r: u32)
        ensures
            r == self.counter_spec(),
    {
        self.counter
    }

    pub fn period(&self) -> (r: u32)
        ensures
            r == self.period_spec(),
    {
        self.period
    }

    /// Advances the counter by one tick. Returns the particles to spawn:
    /// on a firing tick with exactly one cursor marker, one stone particle per
    /// active camera; on any other tick none. A missing or duplicated cursor
    /// marker skips the emission but still counts the tick.
    pub fn tick(&mut self, cursor_markers: usize, cameras: usize) -> (r: Vec<Particle>)
        requires
            old(self).period_spec() > 0,
        ensures
            final(self).period_spec() == old(self).period_spec(),
            final(self).counter_spec() == next_count(old(self).counter_spec()),
            r@.len() == if fires(final(self).counter_spec(), old(self).period_spec())
                && cursor_markers == 1 {
                cameras
            } else {
                0
            },
            forall|i: int| 0 <= i < r@.len() ==> (#[trigger] r@[i]).tile_type == TileType::Stone,
    {
        self.counter = if self.counter == u32::MAX {
            0
        } else {
            self.counter + 1
        };
        let mut r: Vec<Particle> = Vec::new();
        if self.counter % self.period != 0 || cursor_markers != 1 {
            return r;
        }
        let mut i: usize = 0;
        while i < cameras
            invariant
                i <= cameras,
                r@.len() == i,
                forall|j: int| 0 <= j < r@.len() ==> (#[trigger] r@[j]).tile_type == TileType::Stone,
            decreases cameras - i,
        {
            r.push(Particle { tile_type: TileType::Stone });
            i += 1;
        }
        r
    }
}

/// Emission cadence: starting from zero and advancing once per tick, the
/// counter after `k` ticks is `k` itself, so emission happens exactly on the
/// ticks whose number is a multiple of the period.
pub proof fn lemma_emission_cadence(period: u32, k: nat)
    requires
        period > 0,
        k <= u32::MAX,
    ensures
        count_after(0, k) == k,
        fires(count_after(0, k), period) <==> k % (period as nat) == 0,
    decreases k,
{
    if k > 0 {
        lemma_emission_cadence(period, (k - 1) as nat);
    }
}

} // verus!
