//! The stages of a raffle and the only moves between them.

use vstd::prelude::*;

verus! {

/// The stage a raffle is in. A raffle opens as `Active`, becomes
/// `PoolComplete` when the pool reaches its target and `DrawComplete` when the
/// winning numbers are drawn. No operation produces `Cancelled`.
#[derive(Clone, Copy, Debug, PartialEq, Eq, Structural)]
pub enum RaffleStatus {
    Active,
    PoolComplete,
    DrawComplete,
    Cancelled,
}

/// What moves a raffle to its next stage.
#[derive(Clone, Copy, Debug, PartialEq, Eq, Structural)]
pub enum Milestone {
    /// The pool has reached its target.
    PoolFilled,
    /// The winning numbers have been drawn.
    NumbersDrawn,
}

impl RaffleStatus {
    /// The stage that follows `self` once `milestone` is reached. A milestone
    /// that does not belong to the stage leaves it as it is.
    pub open spec fn after(self, milestone: Milestone) -> RaffleStatus {
        match (self, milestone) {
            (RaffleStatus::Active, Milestone::PoolFilled) => RaffleStatus::PoolComplete,
            (RaffleStatus::PoolComplete, Milestone::NumbersDrawn) => RaffleStatus::DrawComplete,
            _ => self,
        }
    }

    /// Whether `next` is `self` or the one stage that directly follows it.
    pub open spec fn steps_to(self, next: RaffleStatus) -> bool {
        ||| next == self
        ||| (self is Active && next is PoolComplete)
        ||| (self is PoolComplete && next is DrawComplete)
    }

    /// Whether `later` is `self` or a stage further along
    /// `Active`, `PoolComplete`, `DrawComplete`.
    pub open spec fn leads_to(self, later: RaffleStatus) -> bool {
        ||| later == self
        ||| (self is Active && (later is PoolComplete || later is DrawComplete))
        ||| (self is PoolComplete && later is DrawComplete)
    }

    /// Moves to the stage that follows once `milestone` is reached.
    pub fn advance(self, milestone: Milestone) -> (next: RaffleStatus)
        ensures
            next == self.after(milestone),
            self.steps_to(next),
    {
        match (self, milestone) {
            (RaffleStatus::Active, Milestone::PoolFilled) => RaffleStatus::PoolComplete,
            (RaffleStatus::PoolComplete, Milestone::NumbersDrawn) => RaffleStatus::DrawComplete,
            _ => self,
        }
    }
}

} // verus!
