//! The battery-service side of the fuel gauge: its error type, the derived
//! static data, and the schedule by which the update task polls the gauge.

use vstd::prelude::*;

use crate::error::Error;
use crate::fuel_gauge::{capacity_number, CapacityModeValue};

verus! {

/// Error of the battery-service wrapper around a Zephyr fuel gauge.
#[derive(Debug, Clone, Copy, PartialEq, Eq, Structural)]
pub enum BatteryServiceWrapperError {
    /// The Zephyr driver reported an error.
    ZephyrError(Error),
}

impl From<Error> for BatteryServiceWrapperError {
    fn from(err: Error) -> (r: Self) {
        BatteryServiceWrapperError::ZephyrError(err)
    }
}

impl vstd::std_specs::convert::FromSpecImpl<Error> for BatteryServiceWrapperError {
    open spec fn obeys_from_spec() -> bool {
        true
    }

    open spec fn from_spec(err: Error) -> BatteryServiceWrapperError {
        BatteryServiceWrapperError::ZephyrError(err)
    }
}

/// The design-capacity warning and low levels reported with the static
/// battery data: a quarter and a tenth of the design capacity's number,
/// both in mAh.
pub fn design_capacity_alarm_levels(design_capacity: CapacityModeValue) -> (r: (CapacityModeValue, CapacityModeValue))
    ensures
        r.0 == CapacityModeValue::MilliAmpUnsigned((capacity_number(design_capacity) / 4) as u16),
        r.1 == CapacityModeValue::MilliAmpUnsigned((capacity_number(design_capacity) / 10) as u16),
{
    let value: u16 = match design_capacity {
        CapacityModeValue::CentiWattUnsigned(v) => v,
        CapacityModeValue::MilliAmpUnsigned(v) => v,
    };
    (CapacityModeValue::MilliAmpUnsigned(value / 4), CapacityModeValue::MilliAmpUnsigned(value / 10))
}

/// The max error reported with the battery data (dynamic max error, static
/// measurement accuracy): the gauge's reading where it gives one, else 0.
pub fn max_error_or_zero(max_error: Result<u8, Error>) -> (r: u8)
    ensures
        r == (match max_error {
            Ok(v) => v,
            Err(_) => 0u8,
        }),
{
    match max_error {
        Ok(v) => v,
        Err(_) => 0,
    }
}

/// Number of one-second ticks between two polls of the static battery data.
pub const STATIC_POLL_PERIOD: usize = 3600;

/// Number of failed polls that the update task tolerates before it starts a
/// recovery of the battery state machine.
pub const MAX_FAILURES: u32 = 10;

/// The static data is polled once an hour of one-second ticks (3600 ticks),
/// and recovery starts after more than 10 failed polls.
pub proof fn lemma_schedule_constants()
    ensures
        STATIC_POLL_PERIOD == 60 * 60,
        MAX_FAILURES == 10,
{
}

/// The schedule of the battery update task: which tick polls the static data,
/// how many polls have failed, and when to recover.
pub struct PollSchedule {
    failures: u32,
    count: usize,
}

impl PollSchedule {
    #[verifier::type_invariant]
    spec fn inv(self) -> bool {
        self.failures <= MAX_FAILURES
    }

    /// Failed polls counted since the last recovery.
    pub closed spec fn failures(self) -> nat {
        self.failures as nat
    }

    /// Ticks counted since the start or the last recovery (wrapping).
    pub closed spec fn count(self) -> nat {
        self.count as nat
    }

    /// A schedule at the start of the task: no failures, tick 0.
    pub fn new() -> (r: Self)
        ensures
            r.failures() == 0,
            r.count() == 0,
    {
        PollSchedule { failures: 0, count: 0 }
    }

    /// Whether this tick polls the static data (every `STATIC_POLL_PERIOD`
    /// ticks, starting with the first).
    pub fn static_poll_due(&self) -> (r: bool)
        ensures
            r == (self.count() % (STATIC_POLL_PERIOD as nat) == 0),
    {
        self.count % STATIC_POLL_PERIOD == 0
    }

    /// The failures counted since the last recovery; never more than `MAX_FAILURES`.
    pub fn failure_count(&self) -> (r: u32)
        ensures
            r == self.failures(),
            r <= MAX_FAILURES,
    {
        proof {
            use_type_invariant(self);
        }
        self.failures
    }

    /// Ends a tick in which the static poll failed or not (`static_failed`,
    /// false where it was not due) and the dynamic poll failed or not.
    /// Returns whether the task must now recover the battery state machine:
    /// exactly when the failures counted exceed `MAX_FAILURES`; then the
    /// failures and the tick count restart, and the tick count advances by one.
    pub fn end_tick(&mut self, static_failed: bool, dynamic_failed: bool) -> (recover: bool)
        ensures
            ({
                let total = old(self).failures() + (if static_failed { 1nat } else { 0nat }) + (
                if dynamic_failed { 1nat } else { 0nat });
                &&& recover == (total > MAX_FAILURES)
                &&& recover ==> final(self).failures() == 0 && final(self).count() == 1
                &&& !recover ==> final(self).failures() == total && final(self).count() == (
                if old(self).count() == usize::MAX as nat { 0 } else { old(self).count() + 1 })
            }),
    {
        proof {
            use_type_invariant(&*self);
        }
        let mut failures = self.failures;
        if static_failed {
            failures = failures + 1;
        }
        if dynamic_failed {
            failures = failures + 1;
        }
        let recover = failures > MAX_FAILURES;
        let mut count = self.count;
        if recover {
            failures = 0;
            count = 0;
        }
        count = count.wrapping_add(1);
        *self = PollSchedule { failures, count };
        recover
    }
}

} // verus!
