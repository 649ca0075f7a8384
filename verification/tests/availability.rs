//! The availability resolver: which actions are legal where.

use tenunda::action::{GameAction, Turn};
use tenunda::business::{tenunda_brewing, Position};
use tenunda::location::Location;
use tenunda::state::GameState;

fn turn(state: GameState, action: GameAction) -> GameState {
    state.apply_turn(Turn { action })
}

/// A state on day 3 whose player was hired at the brewery on day 2, so the
/// first shift (day 3) is due.
fn employed_on_shift_day() -> GameState {
    let mut state = GameState::new();
    state = turn(
        state,
        GameAction::ApplyForJob { employer: tenunda_brewing(), position: Position::Server },
    );
    state = turn(state, GameAction::Sleep { cost: None });
    state = turn(state, GameAction::Go { destination: Location::TenundaBrewery });
    state = turn(state, GameAction::Sleep { cost: None });
    state
}

#[test]
fn hotel_menu() {
    let state = GameState::new();
    let actions = Location::TenundaHotel.available_actions(&state);
    assert_eq!(
        actions,
        vec![
            GameAction::BuyBeer { cost: 10 },
            GameAction::Go { destination: Location::TenundaStreets },
            GameAction::Sleep { cost: Some(120) },
        ]
    );
}

#[test]
fn streets_menu() {
    let state = GameState::new();
    let actions = Location::TenundaStreets.available_actions(&state);
    assert_eq!(
        actions,
        vec![
            GameAction::Go { destination: Location::TenundaBrewery },
            GameAction::Go { destination: Location::TenundaHotel },
        ]
    );
}

#[test]
fn brewery_menu_for_the_unemployed() {
    let state = GameState::new();
    let actions = Location::TenundaBrewery.available_actions(&state);
    assert_eq!(
        actions,
        vec![
            GameAction::BuyBeer { cost: 6 },
            GameAction::Go { destination: Location::TenundaStreets },
            GameAction::ApplyForJob {
                employer: tenunda_brewing(),
                position: Position::Server,
            },
        ]
    );
}

#[test]
fn work_is_offered_exactly_on_the_shift_day() {
    let state = employed_on_shift_day();
    assert_eq!(state.day, 3);
    let job = state.player_state.job.clone().unwrap();
    assert_eq!(job.next_work_day, 3);
    let actions = Location::TenundaBrewery.available_actions(&state);
    assert_eq!(
        actions,
        vec![
            GameAction::Work { job },
            GameAction::BuyBeer { cost: 6 },
            GameAction::Go { destination: Location::TenundaStreets },
        ]
    );
}

#[test]
fn no_work_and_no_application_when_employed_off_shift() {
    let mut state = employed_on_shift_day();
    let job = state.player_state.job.clone().unwrap();
    state = turn(state, GameAction::Work { job });
    // The shift is done; the next one is tomorrow.
    let actions = Location::TenundaBrewery.available_actions(&state);
    assert_eq!(
        actions,
        vec![
            GameAction::BuyBeer { cost: 6 },
            GameAction::Go { destination: Location::TenundaStreets },
        ]
    );
}

#[test]
fn work_is_not_offered_elsewhere() {
    let state = employed_on_shift_day();
    let hotel = Location::TenundaHotel.available_actions(&state);
    assert!(!hotel.iter().any(|a| matches!(a, GameAction::Work { .. })));
    let streets = Location::TenundaStreets.available_actions(&state);
    assert!(!streets.iter().any(|a| matches!(a, GameAction::Work { .. })));
}
