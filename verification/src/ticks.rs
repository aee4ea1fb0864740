//! CPU time as the system counts it, in ticks of 100 nanoseconds, and its
//! conversion into a `Duration`.

use crate::span::{duration_secs, duration_subsec_nanos, lemma_measures_length};
use crate::span::{measures, nanos_of, NANOS_PER_SEC};
use std::time::Duration;
use vstd::prelude::*;

verus! {

/// Nanoseconds in one tick.
pub const NANOS_PER_TICK: u32 = 100;

/// Ticks in one second.
pub const TICKS_PER_SEC: u32 = 10_000_000;

/// A count of ticks as the system hands it out: a 64-bit number in two
/// 32-bit halves.
#[derive(Clone, Copy, Debug, PartialEq, Eq, Hash, Structural)]
pub struct FileTime {
    /// The low 32 bits of the count.
    pub low: u32,
    /// The high 32 bits of the count.
    pub high: u32,
}

impl View for FileTime {
    type V = nat;

    /// The number of ticks that the two halves stand for.
    open spec fn view(&self) -> nat {
        (self.high * 0x1_0000_0000 + self.low) as nat
    }
}

impl FileTime {
    /// The count as one number.
    pub fn ticks(&self) -> (count: u64)
        ensures
            count == self@,
    {
        let high: u64 = self.high as u64;
        let low: u64 = self.low as u64;
        assert((high << 32) == high * 0x1_0000_0000) by (bit_vector)
            requires
                high <= 0xffff_ffff,
        ;
        (high << 32) + low
    }
}

/// The count of no ticks.
pub fn zero() -> (time: FileTime)
    ensures
        time == (FileTime { low: 0, high: 0 }),
        time@ == 0,
{
    FileTime { low: 0, high: 0 }
}

/// The CPU time, in nanoseconds, that `kernel_time` and `user_time` add up to.
pub open spec fn cpu_nanos(kernel_time: FileTime, user_time: FileTime) -> nat {
    (kernel_time@ + user_time@) * (NANOS_PER_TICK as nat)
}

/// Whole seconds and the rest of a tick count, against the same count in
/// nanoseconds.
proof fn lemma_ticks_to_nanos(ticks: int)
    requires
        0 <= ticks,
    ensures
        (ticks * 100) / 1_000_000_000 == ticks / 10_000_000,
        (ticks * 100) % 1_000_000_000 == (ticks % 10_000_000) * 100,
{
    let q = ticks / 10_000_000;
    let r = ticks % 10_000_000;
    vstd::arithmetic::div_mod::lemma_fundamental_div_mod(ticks, 10_000_000);
    assert(ticks * 100 == q * 1_000_000_000 + r * 100) by (nonlinear_arith)
        requires
            ticks == 10_000_000 * q + r,
    ;
    vstd::arithmetic::div_mod::lemma_fundamental_div_mod_converse(
        ticks * 100,
        1_000_000_000,
        q,
        r * 100,
    );
}

/// The time spent in the kernel and the time spent in user code, added up
/// as one duration. No tick is lost or gained, whatever the two counts are.
pub fn to_duration(kernel_time: FileTime, user_time: FileTime) -> (d: Duration)
    ensures
        measures(d, cpu_nanos(kernel_time, user_time) as int),
        nanos_of(d) == cpu_nanos(kernel_time, user_time),
        duration_secs(d) == (kernel_time@ + user_time@) / (TICKS_PER_SEC as nat),
        duration_subsec_nanos(d) == ((kernel_time@ + user_time@) % (TICKS_PER_SEC as nat))
            * NANOS_PER_TICK,
{
    let total: u128 = kernel_time.ticks() as u128 + user_time.ticks() as u128;
    let secs: u128 = total / (TICKS_PER_SEC as u128);
    let rest: u128 = total % (TICKS_PER_SEC as u128);
    let d = Duration::new(secs as u64, (rest as u32) * NANOS_PER_TICK);
    proof {
        lemma_ticks_to_nanos(total as int);
        lemma_measures_length(d, cpu_nanos(kernel_time, user_time) as int);
    }
    d
}

/// Whole seconds convert without drift: where the two counts add up to
/// `secs` seconds' worth of ticks, the duration that `to_duration` returns
/// for them, `d`, is `secs` seconds and nothing more.
pub proof fn lemma_whole_seconds_exact(
    kernel_time: FileTime,
    user_time: FileTime,
    secs: nat,
    d: Duration,
)
    requires
        kernel_time@ + user_time@ == secs * TICKS_PER_SEC,
        measures(d, cpu_nanos(kernel_time, user_time) as int),
    ensures
        duration_secs(d) == secs,
        duration_subsec_nanos(d) == 0,
        nanos_of(d) == secs * NANOS_PER_SEC,
{
    assert(cpu_nanos(kernel_time, user_time) == secs * NANOS_PER_SEC) by (nonlinear_arith)
        requires
            cpu_nanos(kernel_time, user_time) == (kernel_time@ + user_time@) * 100,
            kernel_time@ + user_time@ == secs * 10_000_000,
            NANOS_PER_SEC == 1_000_000_000,
    ;
    vstd::arithmetic::div_mod::lemma_fundamental_div_mod_converse(
        secs * NANOS_PER_SEC,
        NANOS_PER_SEC as int,
        secs as int,
        0,
    );
    lemma_measures_length(d, cpu_nanos(kernel_time, user_time) as int);
}

} // verus!
