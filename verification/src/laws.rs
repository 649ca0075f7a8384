//! The engine's stated laws, proved once and for all states.

use vstd::prelude::*;
use crate::action::{Event, GameAction};
use crate::business::JobApplication;
use crate::location::{available_actions_spec, location_menu, work_offer, Location};
use crate::replay::{day_changed_count, lemma_replay_push, lemma_sweep_replay, replayed_day};
use crate::state::GameStateView;

verus! {

/// Availability gating: `Work` never appears among the available actions
/// unless the player holds a job at the queried location whose next work day
/// is the current day, and then the offered action carries exactly that job.
pub proof fn lemma_work_gated(state: GameStateView, here: Location, i: int)
    requires
        0 <= i < available_actions_spec(state, here).len(),
        available_actions_spec(state, here)[i] is Work,
    ensures
        state.player_state.job matches Some(job) && job.business.location == here
            && job.next_work_day == state.day && available_actions_spec(state, here)[i]
            == (GameAction::Work { job }),
{
    let offer = work_offer(state, here);
    let menu = location_menu(state, here);
    if i < offer.len() {
        assert(available_actions_spec(state, here)[i] == offer[i]);
    } else {
        let k = i - offer.len();
        assert(available_actions_spec(state, here)[i] == menu[k]);
        assert(!(menu[k] is Work));
    }
}

/// The hiring sweep keeps every application that was not submitted before
/// the state's current day.
proof fn lemma_sweep_keeps_current_applications(s: GameStateView, application: JobApplication)
    requires
        s.player_state.job_applications.contains(application),
        application.application_day >= s.day,
    ensures
        s.sweep().player_state.job_applications.contains(application),
    decreases s.player_state.job_applications.len(),
{
    if s.front_qualifies() {
        let applications = s.player_state.job_applications;
        let next = s.front_dropped().hired(applications[0]);
        let j = choose|j: int|
            0 <= j < applications.len() && applications[j] == application;
        assert(applications[0].application_day < s.day);
        assert(j != 0);
        assert(next.player_state.job_applications[j - 1] == application);
        assert(next.player_state.job_applications.contains(application));
        lemma_sweep_keeps_current_applications(next, application);
    }
}

/// The hiring sweep does nothing when no pending application predates the
/// current day.
pub proof fn lemma_sweep_identity(s: GameStateView)
    requires
        forall|k: int|
            0 <= k < s.player_state.job_applications.len()
                ==> #[trigger] s.player_state.job_applications[k].application_day >= s.day,
    ensures
        s.sweep() == s,
{
    if s.player_state.job_applications.len() > 0 {
        assert(s.player_state.job_applications[0].application_day >= s.day);
    }
}

/// Hiring delay: an application submitted on the current day is not promoted
/// by this turn. It is still pending after the whole turn, and the hiring
/// sweep leaves the player's job alone unless some strictly earlier
/// application was pending.
pub proof fn lemma_hiring_delay(s: GameStateView, action: GameAction, i: int)
    requires
        0 <= i < s.player_state.job_applications.len(),
        s.player_state.job_applications[i].application_day == s.day,
    ensures
        s.next_turn(action).player_state.job_applications.contains(
            s.player_state.job_applications[i],
        ),
        s.sweep().player_state.job == s.player_state.job || (exists|k: int|
            0 <= k < s.player_state.job_applications.len()
                && #[trigger] s.player_state.job_applications[k].application_day < s.day),
{
    let application = s.player_state.job_applications[i];
    lemma_sweep_keeps_current_applications(s, application);
    let m = s.sweep();
    let kept = m.player_state.job_applications;
    let j = choose|j: int| 0 <= j < kept.len() && kept[j] == application;
    match action {
        GameAction::ApplyForJob { employer, position } => {
            assert(m.application_recorded(employer, position).player_state.job_applications[j]
                == application);
        }
        GameAction::BuyBeer { cost } => {
            assert(s.next_turn(action).player_state.job_applications[j] == application);
        }
        GameAction::Go { destination } => {
            assert(s.next_turn(action).player_state.job_applications[j] == application);
        }
        GameAction::Sleep { cost } => {
            assert(s.next_turn(action).player_state.job_applications[j] == application);
        }
        GameAction::Work { job } => {
            assert(s.next_turn(action).player_state.job_applications[j] == application);
        }
    }
    if s.front_qualifies() {
        assert(s.player_state.job_applications[0].application_day < s.day);
    }
}

/// Event/state consistency for a beer: after `BuyBeer { cost }` the balance
/// has dropped by exactly `cost`, and the last event is a `BalanceChanged`
/// naming that same balance.
pub proof fn lemma_buy_beer_consistency(s: GameStateView, cost: i64)
    requires
        s.turn_fits((GameAction::BuyBeer { cost })),
    ensures
        ({
            let r = s.next_turn(GameAction::BuyBeer { cost });
            &&& r.player_state.balance == s.player_state.balance - cost
            &&& r.event_log.len() > 0
            &&& r.event_log.last() == (Event::BalanceChanged { to: r.player_state.balance })
        }),
{
    s.lemma_sweep_frame();
}

/// Event/state consistency for a paid sleep: after `Sleep { cost: Some(c) }`
/// the balance has dropped by exactly `c`, and the last event is a
/// `BalanceChanged` naming that same balance.
pub proof fn lemma_paid_sleep_consistency(s: GameStateView, c: i64)
    requires
        s.turn_fits((GameAction::Sleep { cost: Some(c) })),
    ensures
        ({
            let r = s.next_turn(GameAction::Sleep { cost: Some(c) });
            &&& r.player_state.balance == s.player_state.balance - c
            &&& r.event_log.len() > 0
            &&& r.event_log.last() == (Event::BalanceChanged { to: r.player_state.balance })
        }),
{
    s.lemma_sweep_frame();
}

/// Day monotonicity: `Sleep` advances the day by exactly one, appends exactly
/// one `DayChanged` event, and that event names the new day.
pub proof fn lemma_sleep_day(s: GameStateView, cost: Option<i64>)
    requires
        s.turn_fits((GameAction::Sleep { cost })),
    ensures
        ({
            let r = s.next_turn(GameAction::Sleep { cost });
            &&& r.day == s.day + 1
            &&& day_changed_count(r.event_log) == day_changed_count(s.event_log) + 1
            &&& replayed_day(r.event_log) == Some(r.day)
        }),
{
    s.lemma_sweep_frame();
    lemma_sweep_replay(s);
    let m = s.sweep();
    let rested = m.slept();
    let new_day = (m.day + 1) as u8;
    lemma_replay_push(m.event_log, Event::Slept);
    lemma_replay_push(rested.event_log, Event::DayChanged { to: new_day });
    let advanced = rested.day_changed(1);
    match cost {
        Some(c) => {
            let to = (advanced.player_state.balance + (-c)) as i64;
            lemma_replay_push(
                advanced.event_log,
                Event::BalanceChanged { to },
            );
        }
        None => {}
    }
}

/// Every other action leaves the day alone: only `Sleep` moves time.
pub proof fn lemma_day_stable(s: GameStateView, action: GameAction)
    requires
        !(action is Sleep),
    ensures
        s.next_turn(action).day == s.day,
{
    s.lemma_sweep_frame();
}

/// One step of the hiring sweep preserves well-formedness.
proof fn lemma_sweep_step_wf(s: GameStateView)
    requires
        s.wf(),
        s.front_qualifies(),
    ensures
        s.front_dropped().hired(s.player_state.job_applications[0]).wf(),
{
    let applications = s.player_state.job_applications;
    let next = s.front_dropped().hired(applications[0]);
    let rest = next.player_state.job_applications;
    assert forall|i: int, j: int|
        0 <= i <= j < rest.len() implies #[trigger] rest[i].application_day
        <= #[trigger] rest[j].application_day by {
        assert(rest[i] == applications[i + 1]);
        assert(rest[j] == applications[j + 1]);
    }
    assert forall|i: int| 0 <= i < rest.len() implies #[trigger] rest[i].application_day
        <= next.day by {
        assert(rest[i] == applications[i + 1]);
    }
}

/// The hiring sweep preserves well-formedness.
proof fn lemma_sweep_wf(s: GameStateView)
    requires
        s.wf(),
    ensures
        s.sweep().wf(),
    decreases s.player_state.job_applications.len(),
{
    if s.front_qualifies() {
        lemma_sweep_step_wf(s);
        lemma_sweep_wf(s.front_dropped().hired(s.player_state.job_applications[0]));
    }
}

/// The hiring sweep is complete: it leaves nothing overdue pending. Every
/// application still pending after the sweep was submitted on the current day
/// (or, vacuously, later).
pub proof fn lemma_sweep_completes(s: GameStateView)
    requires
        s.wf(),
    ensures
        forall|k: int|
            0 <= k < s.sweep().player_state.job_applications.len()
                ==> #[trigger] s.sweep().player_state.job_applications[k].application_day
                >= s.day,
    decreases s.player_state.job_applications.len(),
{
    if s.front_qualifies() {
        lemma_sweep_step_wf(s);
        lemma_sweep_completes(s.front_dropped().hired(s.player_state.job_applications[0]));
    } else {
        let applications = s.player_state.job_applications;
        assert forall|k: int|
            0 <= k < s.sweep().player_state.job_applications.len() implies #[trigger] s.sweep()
            .player_state.job_applications[k].application_day >= s.day by {
            assert(applications[0].application_day <= applications[k].application_day);
        }
    }
}

/// The initial state is well-formed.
pub proof fn lemma_wf_initial()
    ensures
        GameStateView::initial().wf(),
{
}

/// Every turn whose arithmetic fits preserves well-formedness: the day never
/// goes backwards, and pending applications stay ordered by submission day
/// with none dated in the future.
pub proof fn lemma_wf_preserved(s: GameStateView, action: GameAction)
    requires
        s.wf(),
        s.turn_fits(action),
    ensures
        s.next_turn(action).wf(),
{
    s.lemma_sweep_frame();
    lemma_sweep_wf(s);
    let m = s.sweep();
    let r = s.next_turn(action);
    match action {
        GameAction::ApplyForJob { employer, position } => {
            let pushed = r.player_state.job_applications;
            let kept = m.player_state.job_applications;
            assert forall|i: int, j: int|
                0 <= i <= j < pushed.len() implies #[trigger] pushed[i].application_day
                <= #[trigger] pushed[j].application_day by {
                if j < kept.len() {
                    assert(pushed[i] == kept[i]);
                    assert(pushed[j] == kept[j]);
                } else if i < kept.len() {
                    assert(pushed[i] == kept[i]);
                    assert(pushed[j].application_day == m.day);
                }
            }
            assert forall|i: int|
                0 <= i < pushed.len() implies #[trigger] pushed[i].application_day <= r.day by {
                if i < kept.len() {
                    assert(pushed[i] == kept[i]);
                }
            }
        }
        GameAction::BuyBeer { cost } => {}
        GameAction::Go { destination } => {}
        GameAction::Sleep { cost } => {
            assert(r.day == m.day + 1);
        }
        GameAction::Work { job } => {}
    }
}

} // verus!
