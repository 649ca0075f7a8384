//! Replaying the event log.
//!
//! The event log is the sole channel the surrounding presentation layers
//! read, and it is sufficient: the last `BalanceChanged`, `DayChanged` and
//! `LocationChanged` events always name the player's current balance, the
//! current day and the player's current location. This module defines the
//! replay of a log and proves that the engine keeps it faithful.

use vstd::prelude::*;
use crate::action::{Event, GameAction};
use crate::business::Job;
use crate::location::Location;
use crate::state::{GameStateView, PlayerStateView};

verus! {

/// The balance a replay of `log` ends with: the value of the last
/// `BalanceChanged` event, if any.
pub open spec fn replayed_balance(log: Seq<Event>) -> Option<i64>
    decreases log.len(),
{
    if log.len() == 0 {
        None
    } else {
        match log.last() {
            Event::BalanceChanged { to } => Some(to),
            _ => replayed_balance(log.drop_last()),
        }
    }
}

/// The day a replay of `log` ends with: the value of the last `DayChanged`
/// event, if any.
pub open spec fn replayed_day(log: Seq<Event>) -> Option<u8>
    decreases log.len(),
{
    if log.len() == 0 {
        None
    } else {
        match log.last() {
            Event::DayChanged { to } => Some(to),
            _ => replayed_day(log.drop_last()),
        }
    }
}

/// The location a replay of `log` ends with: the value of the last
/// `LocationChanged` event, if any.
pub open spec fn replayed_location(log: Seq<Event>) -> Option<Location>
    decreases log.len(),
{
    if log.len() == 0 {
        None
    } else {
        match log.last() {
            Event::LocationChanged { to } => Some(to),
            _ => replayed_location(log.drop_last()),
        }
    }
}

/// How many `DayChanged` events `log` holds.
pub open spec fn day_changed_count(log: Seq<Event>) -> nat
    decreases log.len(),
{
    if log.len() == 0 {
        0
    } else {
        (if log.last() is DayChanged {
            1nat
        } else {
            0nat
        }) + day_changed_count(log.drop_last())
    }
}

/// Replaying the full event log reproduces the player's balance, the current
/// day, and the player's location.
pub open spec fn replay_reconstructs(s: GameStateView) -> bool {
    &&& replayed_balance(s.event_log) == Some(s.player_state.balance)
    &&& replayed_day(s.event_log) == Some(s.day)
    &&& replayed_location(s.event_log) == Some(s.player_state.location)
}

/// What one appended event does to a replay: it either sets the replayed
/// value, or leaves it alone.
pub proof fn lemma_replay_push(log: Seq<Event>, e: Event)
    ensures
        replayed_balance(log.push(e)) == (match e {
            Event::BalanceChanged { to } => Some(to),
            _ => replayed_balance(log),
        }),
        replayed_day(log.push(e)) == (match e {
            Event::DayChanged { to } => Some(to),
            _ => replayed_day(log),
        }),
        replayed_location(log.push(e)) == (match e {
            Event::LocationChanged { to } => Some(to),
            _ => replayed_location(log),
        }),
        day_changed_count(log.push(e)) == day_changed_count(log) + (if e is DayChanged {
            1nat
        } else {
            0nat
        }),
{
    assert(log.push(e).drop_last() =~= log);
    assert(log.push(e).last() == e);
}

/// The hiring sweep appends only `Hired` events: the replayed balance, day
/// and location, and the number of `DayChanged` events, are untouched.
pub proof fn lemma_sweep_replay(s: GameStateView)
    ensures
        replayed_balance(s.sweep().event_log) == replayed_balance(s.event_log),
        replayed_day(s.sweep().event_log) == replayed_day(s.event_log),
        replayed_location(s.sweep().event_log) == replayed_location(s.event_log),
        day_changed_count(s.sweep().event_log) == day_changed_count(s.event_log),
    decreases s.player_state.job_applications.len(),
{
    if s.front_qualifies() {
        let application = s.player_state.job_applications[0];
        let next = s.front_dropped().hired(application);
        lemma_replay_push(
            s.event_log,
            Event::Hired { job: s.front_dropped().promoted_job(application) },
        );
        lemma_sweep_replay(next);
    }
}

/// Replaying the three bootstrap events reconstructs the initial state.
pub proof fn lemma_replay_initial()
    ensures
        replay_reconstructs(GameStateView::initial()),
{
    let log = GameStateView::initial().event_log;
    let first_two = seq![
        Event::DayChanged { to: 1u8 },
        Event::BalanceChanged { to: 1000i64 },
    ];
    let first = seq![Event::DayChanged { to: 1u8 }];
    assert(log.drop_last() =~= first_two);
    assert(first_two.drop_last() =~= first);
    assert(replayed_day(first) == Some(1u8));
    assert(replayed_balance(first_two) == Some(1000i64));
    assert(replayed_day(first_two) == Some(1u8));
    assert(replayed_location(log) == Some(Location::TenundaHotel));
    assert(replayed_balance(log) == Some(1000i64));
    assert(replayed_day(log) == Some(1u8));
}

/// One turn keeps the replay faithful: if replaying the log reconstructs the
/// state before `apply_turn`, it reconstructs the state after it. Every field
/// change is paired with exactly one appended event naming the new value, so
/// the log never falls out of step with the state.
pub proof fn lemma_replay_preserved(s: GameStateView, action: GameAction)
    requires
        replay_reconstructs(s),
    ensures
        replay_reconstructs(s.next_turn(action)),
{
    s.lemma_sweep_frame();
    lemma_sweep_replay(s);
    let m = s.sweep();
    match action {
        GameAction::ApplyForJob { employer, position } => {
            lemma_replay_push(m.event_log, Event::AppliedForJob { employer });
        }
        GameAction::BuyBeer { cost } => {
            let drunk = m.beer_drunk();
            let to = (m.player_state.balance + (-cost)) as i64;
            lemma_replay_push(m.event_log, Event::DrankBeer);
            lemma_replay_push(drunk.event_log, Event::BalanceChanged { to });
        }
        GameAction::Go { destination } => {
            lemma_replay_push(m.event_log, Event::LocationChanged { to: destination });
        }
        GameAction::Sleep { cost } => {
            let rested = m.slept();
            let new_day = (m.day + 1) as u8;
            lemma_replay_push(m.event_log, Event::Slept);
            lemma_replay_push(rested.event_log, Event::DayChanged { to: new_day });
            let advanced = rested.day_changed(1);
            match cost {
                Some(c) => {
                    let to = (advanced.player_state.balance + (-c)) as i64;
                    lemma_replay_push(advanced.event_log, Event::BalanceChanged { to });
                }
                None => {}
            }
        }
        GameAction::Work { job } => {
            let advanced = Job {
                business: job.business,
                position: job.position,
                next_work_day: (job.next_work_day + 1) as u8,
                pay: job.pay,
            };
            let with_job = GameStateView {
                player_state: PlayerStateView { job: Some(advanced), ..m.player_state },
                event_log: m.event_log.push(Event::Worked { job: advanced }),
                ..m
            };
            let to = (with_job.player_state.balance + (job.pay as int)) as i64;
            lemma_replay_push(m.event_log, Event::Worked { job: advanced });
            lemma_replay_push(with_job.event_log, Event::BalanceChanged { to });
        }
    }
}

} // verus!
