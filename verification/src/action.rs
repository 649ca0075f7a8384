//! The closed set of player actions and the closed set of semantic events.

use vstd::prelude::*;
use crate::business::{Business, Job};
use crate::business::Position;
use crate::location::Location;

verus! {

/// A player-initiated action; one turn applies exactly one of these.
///
/// `BuyBeer::cost` and `Sleep::cost` are carried on the action value itself,
/// set by the availability resolver at generation time: the action instance
/// is the sole source of truth for price at apply-time.
#[derive(Clone, Copy, PartialEq, Debug)]
pub enum GameAction {
    ApplyForJob { employer: Business, position: Position },
    BuyBeer { cost: i64 },
    Go { destination: Location },
    Sleep { cost: Option<i64> },
    Work { job: Job },
}

/// One turn: the single action the player chose.
pub struct Turn {
    pub action: GameAction,
}

/// An immutable record of one thing that happened during a turn. Events form
/// the append-only audit trail; once appended, never mutated or removed.
#[derive(Clone, Copy, PartialEq, Debug)]
pub enum Event {
    AppliedForJob { employer: Business },
    BalanceChanged { to: i64 },
    DayChanged { to: u8 },
    DrankBeer,
    Hired { job: Job },
    LocationChanged { to: Location },
    Slept,
    Worked { job: Job },
}

} // verus!
