//! The fixed set of places the player can be at, and the availability
//! resolver: the single gate deciding which actions are legal where.

use vstd::prelude::*;
use crate::action::GameAction;
use crate::business::{Position, tenunda_brewing, tenunda_brewing_spec};
use crate::state::{GameState, GameStateView};

verus! {

/// A place in the world. A closed, compile-time enumeration; used as the key
/// for availability lookup and as the address of a business.
#[derive(Clone, Copy, PartialEq, Eq, Structural, Debug)]
pub enum Location {
    TenundaBrewery,
    TenundaHotel,
    TenundaStreets,
}

/// Whether the player holds a job whose business stands at `here`.
pub open spec fn employed_at(state: GameStateView, here: Location) -> bool {
    match state.player_state.job {
        Some(job) => job.business.location == here,
        None => false,
    }
}

/// The `Work` offer: present exactly when the player is employed at `here`
/// and the job's next work day is today, and then it carries that job.
pub open spec fn work_offer(state: GameStateView, here: Location) -> Seq<GameAction> {
    match state.player_state.job {
        Some(job) => if job.business.location == here && job.next_work_day == state.day {
            seq![GameAction::Work { job }]
        } else {
            Seq::empty()
        },
        None => Seq::empty(),
    }
}

/// The fixed menu of a location: what can be done there regardless of the
/// job's schedule, except that the brewery offers an application only to a
/// player not already employed there.
pub open spec fn location_menu(state: GameStateView, here: Location) -> Seq<GameAction> {
    match here {
        Location::TenundaBrewery => {
            let base = seq![
                GameAction::BuyBeer { cost: 6 },
                GameAction::Go { destination: Location::TenundaStreets },
            ];
            if employed_at(state, here) {
                base
            } else {
                base.push(GameAction::ApplyForJob {
                    employer: tenunda_brewing_spec(),
                    position: Position::Server,
                })
            }
        }
        Location::TenundaHotel => seq![
            GameAction::BuyBeer { cost: 10 },
            GameAction::Go { destination: Location::TenundaStreets },
            GameAction::Sleep { cost: Some(120i64) },
        ],
        Location::TenundaStreets => seq![
            GameAction::Go { destination: Location::TenundaBrewery },
            GameAction::Go { destination: Location::TenundaHotel },
        ],
    }
}

/// Every action that is legal at `here` in `state`: the `Work` offer, if due,
/// followed by the location's fixed menu.
pub open spec fn available_actions_spec(state: GameStateView, here: Location) -> Seq<GameAction> {
    work_offer(state, here) + location_menu(state, here)
}

impl Location {
    /// The list of legal actions at this location. Deterministic and
    /// side-effect-free; the transition engine can apply every action listed.
    pub fn available_actions(&self, game_state: &GameState) -> (out: Vec<GameAction>)
        ensures
            out@ == available_actions_spec(game_state@, *self),
    {
        let mut out: Vec<GameAction> = Vec::new();

        let mut employed_here = false;
        match &game_state.player_state.job {
            Some(job) => {
                if job.business.location == *self {
                    employed_here = true;
                    if job.next_work_day == game_state.day {
                        out.push(GameAction::Work { job: *job });
                    }
                }
            }
            None => {}
        }

        match self {
            Location::TenundaBrewery => {
                out.push(GameAction::BuyBeer { cost: 6 });
                out.push(GameAction::Go { destination: Location::TenundaStreets });
                if !employed_here {
                    out.push(GameAction::ApplyForJob {
                        employer: tenunda_brewing(),
                        position: Position::Server,
                    });
                }
            }
            Location::TenundaHotel => {
                out.push(GameAction::BuyBeer { cost: 10 });
                out.push(GameAction::Go { destination: Location::TenundaStreets });
                out.push(GameAction::Sleep { cost: Some(120) });
            }
            Location::TenundaStreets => {
                out.push(GameAction::Go { destination: Location::TenundaBrewery });
                out.push(GameAction::Go { destination: Location::TenundaHotel });
            }
        }

        proof {
            assert(out@ =~= available_actions_spec(game_state@, *self));
        }
        out
    }
}

} // verus!
