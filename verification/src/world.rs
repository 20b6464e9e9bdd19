//! A small game world to drive commands with: a score that a seeded random
//! source moves up or down, and a count of the ticks so far.

use vstd::prelude::*;
use rand::rngs::StdRng;
use rand::{Rng, SeedableRng};
use crate::state::StateContainer;

verus! {

/// The generator type of `rand`, carried as an opaque value.
#[verifier::external_type_specification]
#[verifier::external_body]
pub struct ExStdRng(rand::rngs::StdRng);

/// Calls `StdRng::seed_from_u64`. Nothing is claimed of the generator that
/// comes back.
#[verifier::external_body]
fn seeded_rng(seed: u64) -> StdRng {
    StdRng::seed_from_u64(seed)
}

/// Calls `Rng::gen_range` on the inclusive range from `low` to `high`, which
/// must not be empty. The contract claims that the value lies in the range
/// and nothing more: which value comes is the generator's matter.
#[verifier::external_body]
fn roll_between(rng: &mut StdRng, low: i32, high: i32) -> (value: i32)
    requires
        low <= high,
    ensures
        low <= value <= high,
{
    rng.gen_range(low..=high)
}

/// The least change of the score in one tick.
pub const MIN_DELTA: i32 = -1;

/// The greatest change of the score in one tick.
pub const MAX_DELTA: i32 = 3;

/// What a caller sees of the world.
#[derive(Debug, Clone, Copy, PartialEq, Eq)]
pub struct WorldView {
    pub score: i32,
    pub tick_count: u32,
}

/// What one tick did.
#[derive(Debug, Clone, Copy, PartialEq, Eq)]
pub struct TickResult {
    pub score_delta: i32,
}

/// The world: its score, its age in ticks and its source of chance.
pub struct GameWorld {
    score: i32,
    tick_count: u32,
    rng: StdRng,
}

impl GameWorld {
    /// The score so far.
    pub closed spec fn score(&self) -> int {
        self.score as int
    }

    /// The number of ticks so far.
    pub closed spec fn tick_count(&self) -> int {
        self.tick_count as int
    }

    /// Whether one more tick fits: the score can move by any allowed change
    /// and the count can grow by one.
    pub open spec fn has_room(&self) -> bool {
        &&& i32::MIN <= self.score() + MIN_DELTA
        &&& self.score() + MAX_DELTA <= i32::MAX
        &&& self.tick_count() < u32::MAX
    }

    /// A fresh world whose chance is seeded with `seed`.
    pub fn new(seed: u64) -> (world: GameWorld)
        ensures
            world.score() == 0,
            world.tick_count() == 0,
    {
        GameWorld::from_source(seeded_rng(seed))
    }

    /// The world as a caller sees it.
    pub fn view(&self) -> (v: WorldView)
        ensures
            v.score == self.score(),
            v.tick_count == self.tick_count(),
    {
        WorldView { score: self.score, tick_count: self.tick_count }
    }

    /// Whether one more tick fits.
    pub fn can_tick(&self) -> (b: bool)
        ensures
            b == self.has_room(),
    {
        self.score >= i32::MIN - MIN_DELTA && self.score <= i32::MAX - MAX_DELTA && self.tick_count
            < u32::MAX
    }

    /// Advances the world by one tick: draws a change between `MIN_DELTA` and
    /// `MAX_DELTA` from the source of chance and applies it. Which change
    /// comes is the generator's matter.
    pub fn tick(&mut self) -> (r: TickResult)
        requires
            old(self).has_room(),
        ensures
            MIN_DELTA <= r.score_delta <= MAX_DELTA,
            final(self).score() == old(self).score() + r.score_delta,
            final(self).tick_count() == old(self).tick_count() + 1,
    {
        let delta: i32 = roll_between(&mut self.rng, MIN_DELTA, MAX_DELTA);
        self.apply_delta(delta)
    }

    /// One tick with the change given: the score moves by `delta`, the count
    /// grows by one, and the change is handed back. The source of chance is
    /// left as it is.
    pub fn apply_delta(&mut self, delta: i32) -> (r: TickResult)
        requires
            old(self).has_room(),
            MIN_DELTA <= delta <= MAX_DELTA,
        ensures
            r.score_delta == delta,
            final(self).score() == old(self).score() + delta,
            final(self).tick_count() == old(self).tick_count() + 1,
            final(self).source() == old(self).source(),
    {
        self.score = self.score + delta;
        self.tick_count = self.tick_count + 1;
        TickResult { score_delta: delta }
    }

    /// The generator that the world draws its chance from.
    pub closed spec fn source(&self) -> StdRng {
        self.rng
    }

    /// A fresh world that draws its chance from `rng`, whatever generator
    /// that is.
    pub fn from_source(rng: StdRng) -> (world: GameWorld)
        ensures
            world.score() == 0,
            world.tick_count() == 0,
            world.source() == rng,
    {
        GameWorld { score: 0, tick_count: 0, rng }
    }
}

/// The command that reads the world.
pub fn get_world_view(state: &GameWorld) -> (v: WorldView)
    ensures
        v.score == state.score(),
        v.tick_count == state.tick_count(),
{
    state.view()
}

/// The command that advances the world by one tick.
pub fn tick_world(state: &mut GameWorld) -> (r: TickResult)
    requires
        old(state).has_room(),
    ensures
        MIN_DELTA <= r.score_delta <= MAX_DELTA,
        final(state).score() == old(state).score() + r.score_delta,
        final(state).tick_count() == old(state).tick_count() + 1,
{
    state.tick()
}

/// Puts a fresh world, seeded with `seed`, into the container. Every
/// accessor of the container works from then on.
pub fn init(container: &mut StateContainer<GameWorld>, seed: u32)
    ensures
        final(container)@ is Some,
        final(container)@->0.score() == 0,
        final(container)@->0.tick_count() == 0,
{
    container.set_state(GameWorld::new(seed as u64));
}

} // verus!
