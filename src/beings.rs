use crate::ai::RandomAI;
use crate::comp::Position;
use crate::entity::{Being, TurnTaker};
use crate::scheduler::{Actor, DecisionKind};
use vstd::prelude::*;

verus! {

/// What a basic monster is made of.
pub struct BasicMonsterBundle<AI> {
    pub being: Being,
    pub position: Position,
    pub turn_taker: TurnTaker,
    pub ai: AI,
}

/// A zombie: a random walker with a budget of one action per turn.
pub fn new_zombie(position: Position) -> (r: BasicMonsterBundle<RandomAI>)
    ensures
        r.position == position,
        r.turn_taker == TurnTaker::new_spec(30),
        r.ai.rand.seed_spec() == crate::rng::RANDOM_SEED,
        r.ai.rand.draws_spec() == 0,
{
    BasicMonsterBundle {
        being: Being {},
        position,
        turn_taker: TurnTaker::new(30),
        ai: RandomAI::default(),
    }
}

impl BasicMonsterBundle<RandomAI> {
    /// The scheduling participant that this monster is.
    pub fn into_actor(self) -> (r: Actor)
        ensures
            r.position == self.position,
            r.turn_taker == self.turn_taker,
            r.mind == DecisionKind::RandomWalker(self.ai),
    {
        Actor { position: self.position, turn_taker: self.turn_taker, mind: DecisionKind::RandomWalker(self.ai) }
    }
}

} // verus!
