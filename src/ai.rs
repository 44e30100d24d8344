use crate::rng::Random;
use vstd::prelude::*;

verus! {

/// Decisions come from the player's directional intents.
#[derive(Clone, Copy, Debug, PartialEq, Eq, Structural)]
pub struct PlayerAI;

/// Decisions come from a random walk over the actor's own stream.
pub struct RandomAI {
    pub rand: Random,
}

impl Default for RandomAI {
    /// A walker whose stream starts from the fixed seed.
    fn default() -> (r: RandomAI)
        ensures
            r.rand.seed_spec() == crate::rng::RANDOM_SEED,
            r.rand.draws_spec() == 0,
    {
        RandomAI { rand: Random::default() }
    }
}

/// How one faction stands towards another.
#[derive(Clone, Copy, Debug, PartialEq, Eq, Structural)]
pub enum Disposition {
    /// They will work with the others and help defend them.
    /// Tends to be forgiving about accidental hits.
    WorkWith,
    /// They won't attack unless the other side attacks.
    Neutral,
    /// Will attack on sight.
    Enemy,
}

#[derive(Clone, Copy, Debug, PartialEq, Eq, Structural)]
pub enum Faction {
    Player,
    Undead,
}

/// The disposition held towards a faction.
#[derive(Clone, Copy, Debug, PartialEq, Eq, Structural)]
pub struct FactionDisposition {
    pub disposition: Disposition,
    pub faction: Faction,
}

} // verus!
