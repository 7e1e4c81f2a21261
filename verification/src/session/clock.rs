//! The clock of a session.
use std::time::Instant;

use vstd::prelude::*;

use crate::error::ServiceError;
use crate::time::{Duration, MAX_DURATION_NANOS};

verus! {

/// `std::time::Instant`: an instant on the clock of the system.
#[verifier::external_type_specification]
#[verifier::external_body]
pub struct ExInstant(Instant);

/// `Instant::now`: the instant of the call. Nothing is stated of it.
#[verifier::external_body]
fn current_instant() -> (now: Instant) {
    Instant::now()
}

/// `Instant::elapsed`: the time since an instant, in nanoseconds. All that is
/// stated of it is that it fits a `std::time::Duration`.
#[verifier::external_body]
fn nanos_since(origin: &Instant) -> (nanos: u128)
    ensures
        nanos <= MAX_DURATION_NANOS,
{
    origin.elapsed().as_nanos()
}

/// Clock that never goes back, as time since a fixed origin.
pub trait MonotonicClock {
    fn elapsed(&self) -> Result<Duration, ServiceError>;
}

/// Clock of the system, as time since it was started.
pub struct SystemMonotonicClock {
    origin: Instant,
}

impl SystemMonotonicClock {
    /// Whether this clock may show a time since it was started, in nanoseconds.
    pub closed spec fn may_show(&self, nanos: u128) -> bool {
        call_ensures(nanos_since, (&self.origin,), nanos)
    }

    /// Whether this clock may have been started at the instant of some call.
    pub closed spec fn may_be_started(&self) -> bool {
        call_ensures(current_instant, (), self.origin)
    }

    /// Starts at the instant of the call.
    pub fn start() -> (clock: Self)
        ensures
            clock.may_be_started(),
    {
        SystemMonotonicClock { origin: current_instant() }
    }
}

impl MonotonicClock for SystemMonotonicClock {
    fn elapsed(&self) -> (elapsed: Result<Duration, ServiceError>)
        ensures
            elapsed is Ok,
            exists|nanos: u128| #[trigger] self.may_show(nanos) && elapsed->Ok_0@ == nanos,
    {
        let nanos: u128 = nanos_since(&self.origin);
        assert(self.may_show(nanos));
        match Duration::try_from_nanos(nanos) {
            Some(elapsed) => Ok(elapsed),
            None => Err(ServiceError::ClockFailure),
        }
    }
}

} // verus!
