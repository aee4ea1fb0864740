//! The system's answer to a query for CPU times, and what can go wrong with
//! a clock that is read from such answers.

use crate::span::measures;
use crate::ticks::{cpu_nanos, to_duration, FileTime};
use std::time::Duration;
use vstd::prelude::*;

verus! {

/// Why a clock function has no time to give.
#[derive(Clone, Copy, Debug, PartialEq, Eq, Hash, Structural)]
pub enum ClockError {
    /// The system refused the query, or could not serve it.
    QueryFailed,
    /// The system reported less CPU time than the timestamp already holds.
    Regressed,
}

/// What the system answered to one query for the CPU times of a process or
/// of a thread.
#[derive(Clone, Copy, Debug, PartialEq, Eq, Hash, Structural)]
pub struct TimesReply {
    /// What the call returned: zero where it failed.
    pub status: i32,
    /// The time spent in the kernel on the caller's behalf.
    pub kernel_time: FileTime,
    /// The time spent in the caller's own code.
    pub user_time: FileTime,
}

impl TimesReply {
    /// The system did not serve the query.
    pub open spec fn failed(&self) -> bool {
        self.status == 0
    }

    /// The CPU time that the answer reports, in nanoseconds.
    pub open spec fn cpu_nanos(&self) -> nat {
        cpu_nanos(self.kernel_time, self.user_time)
    }

    /// The CPU time that the answer reports, kernel and user time taken
    /// together, where the query was served.
    pub fn cpu_time(&self) -> (time: Result<Duration, ClockError>)
        ensures
            time is Err <==> self.failed(),
            time matches Err(e) ==> e == ClockError::QueryFailed,
            time matches Ok(d) ==> measures(d, self.cpu_nanos() as int),
    {
        if self.status == 0 {
            Err(ClockError::QueryFailed)
        } else {
            Ok(to_duration(self.kernel_time, self.user_time))
        }
    }
}

} // verus!
