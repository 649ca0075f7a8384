//! The game state and the state-transition engine.
//!
//! [`GameState`] owns the whole world: the current day, the player, and the
//! append-only event log. [`GameState::apply_turn`] is the sole mutator: it
//! first runs the hiring sweep (promoting every job application submitted
//! before the current day), then applies the player's chosen action, and it
//! appends one event for every field it changes.
//!
//! The mathematical model lives in [`GameStateView`]: every step of the
//! engine is specified as a function on views, and each executable method is
//! proved to produce exactly the state its view-level counterpart describes.

use vstd::prelude::*;
use crate::action::{Event, GameAction, Turn};
use crate::business::{Business, Job, JobApplication, Position};
use crate::location::Location;

verus! {

/// The whole world: current day (starting at 1), the player, and the
/// append-only event log.
#[derive(Debug)]
pub struct GameState {
    pub day: u8,
    pub player_state: PlayerState,
    pub event_log: Vec<Event>,
}

/// Everything the player owns: money (which may go negative), a location, at
/// most one job, and the pending job applications in submission order.
#[derive(Debug)]
pub struct PlayerState {
    pub balance: i64,
    pub location: Location,
    pub job: Option<Job>,
    pub job_applications: Vec<JobApplication>,
}

/// The mathematical model of [`PlayerState`].
#[verifier::ext_equal]
pub ghost struct PlayerStateView {
    pub balance: i64,
    pub location: Location,
    pub job: Option<Job>,
    pub job_applications: Seq<JobApplication>,
}

/// The mathematical model of [`GameState`].
#[verifier::ext_equal]
pub ghost struct GameStateView {
    pub day: u8,
    pub player_state: PlayerStateView,
    pub event_log: Seq<Event>,
}

impl View for PlayerState {
    type V = PlayerStateView;

    open spec fn view(&self) -> PlayerStateView {
        PlayerStateView {
            balance: self.balance,
            location: self.location,
            job: self.job,
            job_applications: self.job_applications@,
        }
    }
}

impl View for GameState {
    type V = GameStateView;

    open spec fn view(&self) -> GameStateView {
        GameStateView {
            day: self.day,
            player_state: self.player_state@,
            event_log: self.event_log@,
        }
    }
}

impl PlayerStateView {
    /// The player at game start: 1000 in the pocket, at the hotel, no job,
    /// nothing pending.
    pub open spec fn initial() -> PlayerStateView {
        PlayerStateView {
            balance: 1000,
            location: Location::TenundaHotel,
            job: None,
            job_applications: Seq::empty(),
        }
    }
}

impl GameStateView {
    /// The world at game start: day 1, the initial player, and the three
    /// bootstrap events seeded so a renderer has something to show on first
    /// paint.
    pub open spec fn initial() -> GameStateView {
        GameStateView {
            day: 1,
            player_state: PlayerStateView::initial(),
            event_log: seq![
                Event::DayChanged { to: 1 },
                Event::BalanceChanged { to: 1000 },
                Event::LocationChanged { to: Location::TenundaHotel },
            ],
        }
    }

    /// Set the balance to `balance + delta` and record it. The only step
    /// that changes the balance; paired one-to-one with a `BalanceChanged`.
    pub open spec fn balance_changed(self, delta: int) -> GameStateView {
        let to = (self.player_state.balance + delta) as i64;
        GameStateView {
            player_state: PlayerStateView { balance: to, ..self.player_state },
            event_log: self.event_log.push(Event::BalanceChanged { to }),
            ..self
        }
    }

    /// Advance the day by `delta` and record it. The only step that changes
    /// the day; paired one-to-one with a `DayChanged`.
    pub open spec fn day_changed(self, delta: int) -> GameStateView {
        let to = (self.day + delta) as u8;
        GameStateView {
            day: to,
            event_log: self.event_log.push(Event::DayChanged { to }),
            ..self
        }
    }

    /// Move the player and record it. The only step that changes the
    /// location; paired one-to-one with a `LocationChanged`.
    pub open spec fn location_changed(self, to: Location) -> GameStateView {
        GameStateView {
            player_state: PlayerStateView { location: to, ..self.player_state },
            event_log: self.event_log.push(Event::LocationChanged { to }),
            ..self
        }
    }

    /// Record a `DrankBeer` event; nothing else changes.
    pub open spec fn beer_drunk(self) -> GameStateView {
        GameStateView { event_log: self.event_log.push(Event::DrankBeer), ..self }
    }

    /// Record a `Slept` event; nothing else changes.
    pub open spec fn slept(self) -> GameStateView {
        GameStateView { event_log: self.event_log.push(Event::Slept), ..self }
    }

    /// Append a pending application, submitted on the current day, and record
    /// an `AppliedForJob` event.
    pub open spec fn application_recorded(self, employer: Business, position: Position) -> GameStateView {
        let application = JobApplication {
            business: employer,
            application_day: self.day,
            position,
        };
        GameStateView {
            player_state: PlayerStateView {
                job_applications: self.player_state.job_applications.push(application),
                ..self.player_state
            },
            event_log: self.event_log.push(Event::AppliedForJob { employer }),
            ..self
        }
    }

    /// The job an application is promoted to: first shift tomorrow, fixed pay.
    pub open spec fn promoted_job(self, application: JobApplication) -> Job {
        Job {
            business: application.business,
            position: application.position,
            next_work_day: (self.day + 1) as u8,
            pay: 200,
        }
    }

    /// Promote an application: it becomes the player's job (replacing any
    /// currently held one) and a `Hired` event is recorded.
    pub open spec fn hired(self, application: JobApplication) -> GameStateView {
        let job = self.promoted_job(application);
        GameStateView {
            player_state: PlayerStateView { job: Some(job), ..self.player_state },
            event_log: self.event_log.push(Event::Hired { job }),
            ..self
        }
    }

    /// Drop the earliest-submitted pending application.
    pub open spec fn front_dropped(self) -> GameStateView {
        GameStateView {
            player_state: PlayerStateView {
                job_applications: self.player_state.job_applications.drop_first(),
                ..self.player_state
            },
            ..self
        }
    }

    /// Whether the earliest-submitted pending application was submitted
    /// before the current day, i.e. is due for promotion.
    pub open spec fn front_qualifies(self) -> bool {
        self.player_state.job_applications.len() > 0
            && self.player_state.job_applications[0].application_day < self.day
    }

    /// The hiring sweep: promote pending applications, earliest first, for as
    /// long as the earliest was submitted before the current day. Applications
    /// submitted on the current day are never promoted same-day.
    pub open spec fn sweep(self) -> GameStateView
        decreases self.player_state.job_applications.len(),
    {
        if self.front_qualifies() {
            let application = self.player_state.job_applications[0];
            self.front_dropped().hired(application).sweep()
        } else {
            self
        }
    }

    /// Work the given job: its next work day advances by one, the advanced
    /// job is stored back as the player's current job, and the pay is added
    /// to the balance. The job carried in the action, not the stored one, is
    /// the one advanced.
    pub open spec fn worked(self, job: Job) -> GameStateView {
        let advanced = Job {
            business: job.business,
            position: job.position,
            next_work_day: (job.next_work_day + 1) as u8,
            pay: job.pay,
        };
        let with_job = GameStateView {
            player_state: PlayerStateView { job: Some(advanced), ..self.player_state },
            event_log: self.event_log.push(Event::Worked { job: advanced }),
            ..self
        };
        with_job.balance_changed(job.pay as int)
    }

    /// One action applied to the state the hiring sweep left behind.
    pub open spec fn apply_action(self, action: GameAction) -> GameStateView {
        match action {
            GameAction::ApplyForJob { employer, position } => self.application_recorded(
                employer,
                position,
            ),
            GameAction::BuyBeer { cost } => self.beer_drunk().balance_changed(-cost),
            GameAction::Go { destination } => self.location_changed(destination),
            GameAction::Sleep { cost } => {
                let rested = self.slept().day_changed(1);
                match cost {
                    Some(c) => rested.balance_changed(-c),
                    None => rested,
                }
            }
            GameAction::Work { job } => self.worked(job),
        }
    }

    /// One full turn: the hiring sweep, then the player's action.
    pub open spec fn next_turn(self, action: GameAction) -> GameStateView {
        self.sweep().apply_action(action)
    }

    /// The new balance after a change of `delta` stays within `i64`.
    pub open spec fn balance_delta_fits(self, delta: int) -> bool {
        i64::MIN <= self.player_state.balance + delta <= i64::MAX
    }

    /// The hiring sweep stays within the day's machine type: promotion sets a
    /// first work day of `day + 1`.
    pub open spec fn sweep_fits(self) -> bool {
        self.front_qualifies() ==> self.day < u8::MAX
    }

    /// The given action's arithmetic stays within the machine types. Balances
    /// and days are untouched by the hiring sweep, so these bounds may be read
    /// off the pre-sweep state.
    pub open spec fn action_fits(self, action: GameAction) -> bool {
        match action {
            GameAction::ApplyForJob { .. } => true,
            GameAction::BuyBeer { cost } => cost > i64::MIN && self.balance_delta_fits(-cost),
            GameAction::Go { .. } => true,
            GameAction::Sleep { cost } => self.day < u8::MAX && (match cost {
                Some(c) => c > i64::MIN && self.balance_delta_fits(-c),
                None => true,
            }),
            GameAction::Work { job } => job.next_work_day < u8::MAX && job.pay <= i64::MAX
                && self.balance_delta_fits(job.pay as int),
        }
    }

    /// A whole turn's arithmetic stays within the machine types.
    pub open spec fn turn_fits(self, action: GameAction) -> bool {
        self.sweep_fits() && self.action_fits(action)
    }

    /// Well-formedness: the day count starts at 1, pending applications are
    /// ordered by submission day, and none was submitted in the future.
    /// Established at game start and preserved by every turn
    /// ([`crate::laws::lemma_wf_preserved`]).
    pub open spec fn wf(self) -> bool {
        let applications = self.player_state.job_applications;
        &&& self.day >= 1
        &&& forall|i: int, j: int|
            0 <= i <= j < applications.len() ==> #[trigger] applications[i].application_day
                <= #[trigger] applications[j].application_day
        &&& forall|i: int|
            0 <= i < applications.len() ==> #[trigger] applications[i].application_day <= self.day
    }

    /// The hiring sweep never touches the balance, the location, or the day,
    /// and only ever appends to the event log.
    pub proof fn lemma_sweep_frame(self)
        ensures
            self.sweep().day == self.day,
            self.sweep().player_state.balance == self.player_state.balance,
            self.sweep().player_state.location == self.player_state.location,
            self.sweep().event_log.len() >= self.event_log.len(),
        decreases self.player_state.job_applications.len(),
    {
        if self.front_qualifies() {
            let application = self.player_state.job_applications[0];
            self.front_dropped().hired(application).lemma_sweep_frame();
        }
    }
}

impl PlayerState {
    /// The player at game start.
    fn new() -> (r: Self)
        ensures
            r@ == PlayerStateView::initial(),
    {
        let r = PlayerState {
            balance: 1000,
            location: Location::TenundaHotel,
            job: None,
            job_applications: Vec::new(),
        };
        proof {
            assert(r@ =~= PlayerStateView::initial());
        }
        r
    }
}

impl GameState {
    /// Construct the initial state, with the bootstrap events seeded.
    pub fn new() -> (r: Self)
        ensures
            r@ == GameStateView::initial(),
    {
        let player_state = PlayerState::new();
        let mut initial_log: Vec<Event> = Vec::new();
        initial_log.push(Event::DayChanged { to: 1 });
        initial_log.push(Event::BalanceChanged { to: player_state.balance });
        initial_log.push(Event::LocationChanged { to: player_state.location });

        let r = GameState { day: 1, event_log: initial_log, player_state };
        proof {
            assert(r@ =~= GameStateView::initial());
        }
        r
    }

    /// Apply one turn: run the hiring sweep, then the chosen action. The sole
    /// mutator; the caller rebinds to the returned value.
    pub fn apply_turn(self, turn: Turn) -> (r: Self)
        requires
            self@.turn_fits(turn.action),
        ensures
            r@ == self@.next_turn(turn.action),
    {
        let ghost orig = self@;
        let swept = self.hire_jobs();
        proof {
            orig.lemma_sweep_frame();
        }
        swept.apply_player_action(turn.action)
    }

    /// The hiring sweep: promote every pending application submitted before
    /// the current day, earliest first.
    fn hire_jobs(self) -> (r: Self)
        requires
            self@.sweep_fits(),
        ensures
            r@ == self@.sweep(),
        decreases self.player_state.job_applications.len(),
    {
        let ghost orig = self@;
        let mut state = self;
        if state.player_state.job_applications.len() > 0
            && state.player_state.job_applications[0].application_day < state.day {
            let application = state.player_state.job_applications.remove(0);
            proof {
                assert(state@ =~= orig.front_dropped());
            }
            state.hire_for_job(application);
            assert(state@ == orig.front_dropped().hired(application));
            state.hire_jobs()
        } else {
            state
        }
    }

    /// Apply the player's chosen action to the state the sweep left behind.
    fn apply_player_action(self, action: GameAction) -> (r: Self)
        requires
            self@.action_fits(action),
        ensures
            r@ == self@.apply_action(action),
    {
        let mut state = self;
        match action {
            GameAction::ApplyForJob { employer, position } => {
                state.apply_for_job(employer, position);
                state
            }
            GameAction::BuyBeer { cost } => {
                state.drink_beer();
                state.change_balance(0 - cost);
                state
            }
            GameAction::Go { destination } => {
                state.change_location(destination);
                state
            }
            GameAction::Sleep { cost } => {
                state.sleep();
                state.change_day(1);
                if let Some(cost) = cost {
                    state.change_balance(0 - cost);
                }
                state
            }
            GameAction::Work { job } => {
                state.work(job);
                state
            }
        }
    }

    /// Submit a job application, dated today.
    fn apply_for_job(&mut self, employer: Business, position: Position)
        ensures
            final(self)@ == old(self)@.application_recorded(employer, position),
    {
        self.player_state.job_applications.push(JobApplication {
            application_day: self.day,
            business: employer,
            position,
        });
        self.event_log.push(Event::AppliedForJob { employer });
    }

    /// Change the balance by `delta` and record the new balance.
    fn change_balance(&mut self, delta: i64)
        requires
            old(self)@.balance_delta_fits(delta as int),
        ensures
            final(self)@ == old(self)@.balance_changed(delta as int),
    {
        let to = self.player_state.balance + delta;
        self.player_state.balance = to;
        self.event_log.push(Event::BalanceChanged { to });
    }

    /// Advance the day by `delta` and record the new day.
    fn change_day(&mut self, delta: u8)
        requires
            old(self).day + delta <= u8::MAX,
        ensures
            final(self)@ == old(self)@.day_changed(delta as int),
    {
        let to = self.day + delta;
        self.day = to;
        self.event_log.push(Event::DayChanged { to });
    }

    /// Move the player and record the new location.
    fn change_location(&mut self, to: Location)
        ensures
            final(self)@ == old(self)@.location_changed(to),
    {
        self.player_state.location = to;
        self.event_log.push(Event::LocationChanged { to });
    }

    /// Record that a beer was drunk.
    fn drink_beer(&mut self)
        ensures
            final(self)@ == old(self)@.beer_drunk(),
    {
        self.event_log.push(Event::DrankBeer);
    }

    /// Promote an application into the player's job and record the hire.
    fn hire_for_job(&mut self, application: JobApplication)
        requires
            old(self).day < u8::MAX,
        ensures
            final(self)@ == old(self)@.hired(application),
    {
        let job = Job {
            business: application.business,
            next_work_day: self.day + 1,
            pay: 200,
            position: application.position,
        };
        self.player_state.job = Some(job);
        self.event_log.push(Event::Hired { job });
    }

    /// Record that the player slept.
    fn sleep(&mut self)
        ensures
            final(self)@ == old(self)@.slept(),
    {
        self.event_log.push(Event::Slept);
    }

    /// Work the job carried in the action: advance it, store it back as the
    /// player's job, and pay the player.
    fn work(&mut self, job: Job)
        requires
            job.next_work_day < u8::MAX,
            job.pay <= i64::MAX,
            old(self)@.balance_delta_fits(job.pay as int),
        ensures
            final(self)@ == old(self)@.worked(job),
    {
        let (advanced, pay) = job.work();
        self.player_state.job = Some(advanced);
        self.event_log.push(Event::Worked { job: advanced });
        self.change_balance(pay as i64);
    }
}

} // verus!
