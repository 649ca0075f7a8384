//! Businesses, job roles, applications and jobs: the employment model.

use vstd::prelude::*;
use crate::location::Location;

verus! {

/// Static reference data: a named business standing at a fixed location.
/// Equality is by value.
#[derive(Clone, Copy, PartialEq, Debug)]
pub struct Business {
    pub name: &'static str,
    pub location: Location,
}

/// The one well-known business of this world, as a spec-level constant.
pub open spec fn tenunda_brewing_spec() -> Business {
    Business { name: "Tenunda Brewing", location: Location::TenundaBrewery }
}

/// The one well-known business of this world: the brewery.
pub fn tenunda_brewing() -> (b: Business)
    ensures
        b == tenunda_brewing_spec(),
{
    Business { name: "Tenunda Brewing", location: Location::TenundaBrewery }
}

/// A pending job offer: created when the player applies, consumed when the
/// hiring sweep promotes it to a [`Job`].
#[derive(Clone, Copy, PartialEq, Debug)]
pub struct JobApplication {
    pub business: Business,
    pub application_day: u8,
    pub position: Position,
}

/// Active employment. `next_work_day` advances by one each time the job is
/// worked; `pay` is immutable per job instance.
#[derive(Clone, Copy, PartialEq, Debug)]
pub struct Job {
    pub business: Business,
    pub position: Position,
    pub next_work_day: u8,
    pub pay: u64,
}

impl Job {
    /// Perform one shift: the next work day advances by one, and the job's
    /// pay is returned alongside the advanced job.
    pub fn work(self) -> (r: (Self, u64))
        requires
            self.next_work_day < u8::MAX,
        ensures
            r.0.business == self.business,
            r.0.position == self.position,
            r.0.next_work_day == self.next_work_day + 1,
            r.0.pay == self.pay,
            r.1 == self.pay,
    {
        let advanced = Job {
            business: self.business,
            position: self.position,
            next_work_day: self.next_work_day + 1,
            pay: self.pay,
        };
        (advanced, self.pay)
    }
}

/// A job role. A closed enumeration.
#[derive(Clone, Copy, PartialEq, Eq, Structural, Debug)]
pub enum Position {
    Server,
}

} // verus!
