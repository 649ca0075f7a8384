//! The event log as the single source of truth: replaying it reproduces the
//! player-visible state.

use tenunda::action::{Event, GameAction, Turn};
use tenunda::business::{tenunda_brewing, Position};
use tenunda::location::Location;
use tenunda::state::GameState;

fn turn(state: GameState, action: GameAction) -> GameState {
    state.apply_turn(Turn { action })
}

/// Fold the log the way a renderer would: the last of each kind of change
/// event names the current value.
fn replay(log: &[Event]) -> (Option<i64>, Option<u8>, Option<Location>) {
    let mut balance = None;
    let mut day = None;
    let mut location = None;
    for event in log {
        match event {
            Event::BalanceChanged { to } => balance = Some(*to),
            Event::DayChanged { to } => day = Some(*to),
            Event::LocationChanged { to } => location = Some(*to),
            _ => {}
        }
    }
    (balance, day, location)
}

fn assert_replay_matches(state: &GameState) {
    let (balance, day, location) = replay(&state.event_log);
    assert_eq!(balance, Some(state.player_state.balance));
    assert_eq!(day, Some(state.day));
    assert_eq!(location, Some(state.player_state.location));
}

#[test]
fn replaying_the_bootstrap_log_reproduces_the_initial_state() {
    assert_replay_matches(&GameState::new());
}

#[test]
fn replaying_the_log_reproduces_the_state_after_a_full_game() {
    let mut state = GameState::new();
    assert_replay_matches(&state);
    let script = vec![
        GameAction::Go { destination: Location::TenundaStreets },
        GameAction::Go { destination: Location::TenundaBrewery },
        GameAction::BuyBeer { cost: 6 },
        GameAction::ApplyForJob { employer: tenunda_brewing(), position: Position::Server },
        GameAction::Go { destination: Location::TenundaStreets },
        GameAction::Go { destination: Location::TenundaHotel },
        GameAction::Sleep { cost: Some(120) },
        GameAction::Go { destination: Location::TenundaStreets },
        GameAction::Go { destination: Location::TenundaBrewery },
        GameAction::Sleep { cost: None },
    ];
    for action in script {
        state = turn(state, action);
        assert_replay_matches(&state);
    }
    // Day 3: the brewery job's first shift.
    let job = state.player_state.job.clone().unwrap();
    state = turn(state, GameAction::Work { job });
    assert_replay_matches(&state);
    assert_eq!(state.day, 3);
    assert_eq!(state.player_state.balance, 1000 - 6 - 120 + 200);
}

#[test]
fn the_log_only_ever_grows() {
    let mut state = GameState::new();
    let mut last_len = state.event_log.len();
    let script = vec![
        GameAction::ApplyForJob { employer: tenunda_brewing(), position: Position::Server },
        GameAction::Sleep { cost: None },
        GameAction::Go { destination: Location::TenundaBrewery },
        GameAction::BuyBeer { cost: 6 },
    ];
    for action in script {
        let before: Vec<Event> = state.event_log.clone();
        state = turn(state, action);
        assert!(state.event_log.len() > last_len);
        assert_eq!(&state.event_log[..before.len()], &before[..]);
        last_len = state.event_log.len();
    }
}
