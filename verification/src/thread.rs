//! CPU time used by the calling thread.

use crate::query::{ClockError, TimesReply};
use crate::span::{at_least, difference, lemma_measures_length};
use crate::span::{lemma_measures_monotone, measures, nanos_of, no_longer};
use std::marker::PhantomData;
use std::rc::Rc;
use std::time::Duration;
use vstd::prelude::*;

verus! {

/// CPU time used by one thread, as a timestamp: only the difference of two
/// of them, taken on one thread, means anything.
///
/// A timestamp cannot be sent to another thread nor be shared with one:
/// the CPU time of a thread says nothing on another thread. The durations
/// that `elapsed` and `duration_since` return can go anywhere.
#[derive(Copy, Clone, PartialEq, Eq, Debug, Hash)]
pub struct ThreadTime(
    Duration,
    // keeps the type from being `Send` and from being `Sync`
    PhantomData<Rc<()>>,
);

impl View for ThreadTime {
    type V = Duration;

    /// The CPU time that the thread had used when the timestamp was taken.
    closed spec fn view(&self) -> Duration {
        self.0
    }
}

impl ThreadTime {
    /// The CPU time that the timestamp holds, in nanoseconds.
    pub open spec fn cpu_nanos(&self) -> nat {
        nanos_of(self@)
    }

    /// The timestamp of the calling thread, from the system's `reply` to a
    /// query for that thread's times.
    pub fn now(reply: TimesReply) -> (stamp: Result<ThreadTime, ClockError>)
        ensures
            stamp is Err <==> reply.failed(),
            stamp matches Err(e) ==> e == ClockError::QueryFailed,
            stamp matches Ok(t) ==> {
                &&& t.cpu_nanos() == reply.cpu_nanos()
                &&& measures(t@, reply.cpu_nanos() as int)
            },
    {
        match reply.cpu_time() {
            Ok(duration) => {
                proof {
                    lemma_measures_length(duration, reply.cpu_nanos() as int);
                }
                Ok(ThreadTime(duration, PhantomData))
            },
            Err(e) => Err(e),
        }
    }

    /// What `elapsed` answers to `reply`: the CPU time in nanoseconds that
    /// the thread has used since the timestamp, or why there is none.
    pub open spec fn elapsed_nanos(&self, reply: TimesReply) -> Result<int, ClockError> {
        if reply.failed() {
            Err(ClockError::QueryFailed)
        } else if reply.cpu_nanos() < self.cpu_nanos() {
            Err(ClockError::Regressed)
        } else {
            Ok(reply.cpu_nanos() - self.cpu_nanos())
        }
    }

    /// The CPU time that the thread has used from the timestamp to the
    /// moment of `reply`, which is the system's answer to a new query on the
    /// same thread: what `duration_since` gives for a timestamp taken from
    /// `reply`, against this one.
    pub fn elapsed(&self, reply: TimesReply) -> (time: Result<Duration, ClockError>)
        ensures
            match self.elapsed_nanos(reply) {
                Ok(nanos) => time matches Ok(d) && measures(d, nanos),
                Err(e) => time == Err::<Duration, ClockError>(e),
            },
    {
        match ThreadTime::now(reply) {
            Ok(now) => match now.checked_duration_since(*self) {
                Some(d) => Ok(d),
                None => Err(ClockError::Regressed),
            },
            Err(e) => Err(e),
        }
    }

    /// The CPU time that the thread used from `timestamp` to this
    /// timestamp, where `timestamp` is not the later of the two; nothing
    /// where it is.
    pub fn checked_duration_since(&self, timestamp: ThreadTime) -> (time: Option<Duration>)
        ensures
            time is Some <==> timestamp.cpu_nanos() <= self.cpu_nanos(),
            time matches Some(d) ==> measures(d, self.cpu_nanos() - timestamp.cpu_nanos()),
    {
        if at_least(self.0, timestamp.0) {
            Some(self.duration_since(timestamp))
        } else {
            None
        }
    }

    /// The CPU time that the thread used from `timestamp` to this
    /// timestamp. Both are to be taken on the same thread.
    pub fn duration_since(&self, timestamp: ThreadTime) -> (d: Duration)
        requires
            timestamp.cpu_nanos() <= self.cpu_nanos(),
        ensures
            measures(d, self.cpu_nanos() - timestamp.cpu_nanos()),
    {
        difference(self.0, timestamp.0)
    }
}

/// The CPU time that has elapsed since a timestamp never shrinks: of two
/// answers to later queries on the same thread, neither of which reports
/// less CPU time than the timestamp holds, the one that reports more gives
/// the longer elapsed time, and equal reports give equal times. `shorter`
/// and `longer` are what `elapsed` returns for the two.
pub proof fn lemma_thread_elapsed_grows(
    stamp: ThreadTime,
    first: TimesReply,
    second: TimesReply,
    shorter: Duration,
    longer: Duration,
)
    requires
        !first.failed(),
        !second.failed(),
        stamp.cpu_nanos() <= first.cpu_nanos() <= second.cpu_nanos(),
        stamp.elapsed_nanos(first) matches Ok(nanos) && measures(shorter, nanos),
        stamp.elapsed_nanos(second) matches Ok(nanos) && measures(longer, nanos),
    ensures
        0 <= stamp.elapsed_nanos(first)->Ok_0 <= stamp.elapsed_nanos(second)->Ok_0,
        0 <= nanos_of(shorter) <= nanos_of(longer),
        no_longer(shorter, longer),
        first.cpu_nanos() == second.cpu_nanos() ==> nanos_of(shorter) == nanos_of(longer),
        first.cpu_nanos() < second.cpu_nanos() ==> nanos_of(shorter) < nanos_of(longer),
{
    let x = stamp.elapsed_nanos(first)->Ok_0;
    let y = stamp.elapsed_nanos(second)->Ok_0;
    lemma_measures_length(shorter, x);
    lemma_measures_length(longer, y);
    lemma_measures_monotone(shorter, x, longer, y);
}

} // verus!
