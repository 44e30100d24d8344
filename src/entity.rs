use vstd::prelude::*;

verus! {

/// The energy cost of one action.
pub const ACTION_COST: i32 = 30;

/// A marker for the actor that the current turn is for.
#[derive(Clone, Copy, Debug, PartialEq, Eq, Structural)]
pub struct ActiveTurn;

/// Something that can perform an action during a turn.
#[derive(Clone, Copy, Debug, PartialEq, Eq, Structural)]
pub struct TurnTaker {
    pub max_energy: i32,
    pub energy: i32,
}

impl TurnTaker {
    pub open spec fn new_spec(max_energy: i32) -> TurnTaker {
        TurnTaker { max_energy, energy: max_energy }
    }

    /// A turn taker with a full budget.
    pub fn new(max_energy: i32) -> (r: TurnTaker)
        ensures
            r == TurnTaker::new_spec(max_energy),
    {
        TurnTaker { max_energy, energy: max_energy }
    }

    /// The energy stays within the budget.
    pub open spec fn wf(self) -> bool {
        0 <= self.energy <= self.max_energy
    }

    /// The budget after one action: the cost, or what is left if that is less.
    pub open spec fn spent(self) -> TurnTaker {
        TurnTaker {
            max_energy: self.max_energy,
            energy: if self.energy >= ACTION_COST { (self.energy - ACTION_COST) as i32 } else { 0 },
        }
    }

    /// Pays for one action, never going below zero.
    pub fn spend(&mut self)
        requires
            old(self).wf(),
        ensures
            *final(self) == old(self).spent(),
            final(self).wf(),
            old(self).energy - final(self).energy == if old(self).energy < ACTION_COST {
                old(self).energy as int
            } else {
                ACTION_COST as int
            },
    {
        if self.energy >= ACTION_COST {
            self.energy = self.energy - ACTION_COST;
        } else {
            self.energy = 0;
        }
    }
}

/// One action takes exactly the cost, or all that is left where that is
/// less, and the budget stays within bounds.
pub proof fn lemma_spend_amount(t: TurnTaker)
    requires
        t.wf(),
    ensures
        t.spent().wf(),
        t.spent().max_energy == t.max_energy,
        t.energy - t.spent().energy == if t.energy < ACTION_COST {
            t.energy as int
        } else {
            ACTION_COST as int
        },
{
}

/// A 'being' in the world.
#[derive(Clone, Copy, Debug, PartialEq, Eq, Structural)]
pub struct Being {}

/// A pool of mana.
#[derive(Clone, Copy, Debug, PartialEq, Eq, Structural)]
pub struct Mana {
    pub max: u32,
    pub current: u32,
}

impl Mana {
    /// A full pool.
    pub fn new(max: u32) -> (r: Mana)
        ensures
            r.max == max,
            r.current == max,
    {
        Mana { max, current: max }
    }
}

} // verus!
