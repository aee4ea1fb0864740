//! CPU time used by a whole process.

use crate::query::{ClockError, TimesReply};
use crate::span::{at_least, difference, duration_subsec_nanos, measures, nanos_of, no_longer};
use crate::span::{lemma_length_measures, lemma_measures_length, lemma_measures_monotone};
use crate::span::NANOS_PER_SEC;
use std::time::Duration;
use vstd::prelude::*;

verus! {

/// What a `ProcessTime` stands for.
pub struct ProcessStamp {
    /// The CPU time that the process had used when the timestamp was taken.
    pub duration: Duration,
    /// The handle by which the system knows the process.
    pub process: usize,
}

/// CPU time used by a whole process, as a timestamp: only the difference of
/// two of them, taken of one process, means anything.
#[derive(Copy, Clone, PartialEq, Eq, Debug, Hash)]
pub struct ProcessTime {
    duration: Duration,
    process: usize,
}

impl View for ProcessTime {
    type V = ProcessStamp;

    closed spec fn view(&self) -> ProcessStamp {
        ProcessStamp { duration: self.duration, process: self.process }
    }
}

impl ProcessTime {
    #[verifier::type_invariant]
    spec fn well_formed(&self) -> bool {
        duration_subsec_nanos(self.duration) < NANOS_PER_SEC
    }

    /// The CPU time that the timestamp holds, in nanoseconds.
    pub open spec fn cpu_nanos(&self) -> nat {
        nanos_of(self@.duration)
    }

    /// The timestamp of the calling process: `process` is the handle that
    /// stands for the caller, and `reply` is the system's answer to a query
    /// for the times of the process behind it.
    pub fn now(process: usize, reply: TimesReply) -> (stamp: Result<ProcessTime, ClockError>)
        ensures
            stamp is Err <==> reply.failed(),
            stamp matches Err(e) ==> e == ClockError::QueryFailed,
            stamp matches Ok(t) ==> {
                &&& t@.process == process
                &&& t.cpu_nanos() == reply.cpu_nanos()
                &&& measures(t@.duration, reply.cpu_nanos() as int)
            },
    {
        match reply.cpu_time() {
            Ok(duration) => {
                proof {
                    lemma_measures_length(duration, reply.cpu_nanos() as int);
                }
                Ok(ProcessTime { duration, process })
            },
            Err(e) => Err(e),
        }
    }

    /// The timestamp of a process that the caller has opened: `process` is
    /// the handle that the system gave for it, and `reply` is the system's
    /// answer to a query for the times of the process behind it. Where the
    /// system gave no handle, it serves no query either, and `reply` says so.
    pub fn now_for(process: usize, reply: TimesReply) -> (stamp: Result<ProcessTime, ClockError>)
        ensures
            stamp is Err <==> reply.failed(),
            stamp matches Err(e) ==> e == ClockError::QueryFailed,
            stamp matches Ok(t) ==> {
                &&& t@.process == process
                &&& t.cpu_nanos() == reply.cpu_nanos()
                &&& measures(t@.duration, reply.cpu_nanos() as int)
            },
    {
        ProcessTime::now(process, reply)
    }

    /// The handle of the process that the timestamp was taken of: the one
    /// to query again for `elapsed`.
    pub fn process(&self) -> (process: usize)
        ensures
            process == self@.process,
    {
        self.process
    }

    /// What `elapsed` answers to `reply`: the CPU time in nanoseconds that
    /// the process has used since the timestamp, or why there is none.
    pub open spec fn elapsed_nanos(&self, reply: TimesReply) -> Result<int, ClockError> {
        if reply.failed() {
            Err(ClockError::QueryFailed)
        } else if reply.cpu_nanos() < self.cpu_nanos() {
            Err(ClockError::Regressed)
        } else {
            Ok(reply.cpu_nanos() - self.cpu_nanos())
        }
    }

    /// The CPU time that the process has used from the timestamp to the
    /// moment of `reply`, which is the system's answer to a new query for
    /// the same process. The timestamp stays as it is.
    pub fn elapsed(&self, reply: TimesReply) -> (time: Result<Duration, ClockError>)
        ensures
            match self.elapsed_nanos(reply) {
                Ok(nanos) => time matches Ok(d) && measures(d, nanos),
                Err(e) => time == Err::<Duration, ClockError>(e),
            },
    {
        match reply.cpu_time() {
            Ok(now) => if at_least(now, self.duration()) {
                Ok(difference(now, self.duration()))
            } else {
                Err(ClockError::Regressed)
            },
            Err(e) => Err(e),
        }
    }

    /// The CPU time that the process used from `timestamp` to this
    /// timestamp, where `timestamp` is not the later of the two; nothing
    /// where it is.
    pub fn checked_duration_since(&self, timestamp: ProcessTime) -> (time: Option<Duration>)
        ensures
            time is Some <==> timestamp.cpu_nanos() <= self.cpu_nanos(),
            time matches Some(d) ==> measures(d, self.cpu_nanos() - timestamp.cpu_nanos()),
    {
        if at_least(self.duration(), timestamp.duration()) {
            Some(self.duration_since(timestamp))
        } else {
            None
        }
    }

    /// The CPU time that the process used from `timestamp` to this
    /// timestamp. Both are to be taken of the same process.
    pub fn duration_since(&self, timestamp: ProcessTime) -> (d: Duration)
        requires
            timestamp.cpu_nanos() <= self.cpu_nanos(),
        ensures
            measures(d, self.cpu_nanos() - timestamp.cpu_nanos()),
    {
        difference(self.duration(), timestamp.duration())
    }

    /// The CPU time that the process had used when the timestamp was taken.
    pub fn duration(&self) -> (d: Duration)
        ensures
            d == self@.duration,
            measures(d, self.cpu_nanos() as int),
    {
        proof {
            use_type_invariant(self);
            lemma_length_measures(self.duration);
        }
        self.duration
    }
}

/// `duration` reads the timestamp and nothing else: whenever it is asked,
/// and whatever has become of the process, its results for one timestamp,
/// here `once` and `again`, are the same duration, which is the CPU time
/// that `now` found in the `reply` that the timestamp was taken from.
pub proof fn lemma_duration_repeats(
    stamp: ProcessTime,
    reply: TimesReply,
    once: Duration,
    again: Duration,
)
    requires
        measures(stamp@.duration, reply.cpu_nanos() as int),
        once == stamp@.duration,
        again == stamp@.duration,
    ensures
        once == again,
        measures(once, reply.cpu_nanos() as int),
        nanos_of(again) == reply.cpu_nanos(),
{
    lemma_measures_length(once, reply.cpu_nanos() as int);
}

/// The CPU time that has elapsed since a timestamp never shrinks: of two
/// answers to later queries, neither of which reports less CPU time than the
/// timestamp holds, the one that reports more gives the longer elapsed time,
/// and equal reports give equal times. `shorter` and `longer` are what
/// `elapsed` returns for the two.
pub proof fn lemma_process_elapsed_grows(
    stamp: ProcessTime,
    first: TimesReply,
    second: TimesReply,
    shorter: Duration,
    longer: Duration,
)
    requires
        !first.failed(),
        !second.failed(),
        stamp.cpu_nanos() <= first.cpu_nanos() <= second.cpu_nanos(),
        stamp.elapsed_nanos(first) matches Ok(nanos) && measures(shorter, nanos),
        stamp.elapsed_nanos(second) matches Ok(nanos) && measures(longer, nanos),
    ensures
        0 <= stamp.elapsed_nanos(first)->Ok_0 <= stamp.elapsed_nanos(second)->Ok_0,
        0 <= nanos_of(shorter) <= nanos_of(longer),
        no_longer(shorter, longer),
        first.cpu_nanos() == second.cpu_nanos() ==> nanos_of(shorter) == nanos_of(longer),
        first.cpu_nanos() < second.cpu_nanos() ==> nanos_of(shorter) < nanos_of(longer),
{
    let x = stamp.elapsed_nanos(first)->Ok_0;
    let y = stamp.elapsed_nanos(second)->Ok_0;
    lemma_measures_length(shorter, x);
    lemma_measures_length(longer, y);
    lemma_measures_monotone(shorter, x, longer, y);
}

} // verus!
