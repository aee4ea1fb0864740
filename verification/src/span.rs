//! What this library knows of `std::time::Duration`, and how its contracts
//! speak of one: by the whole seconds and the nanoseconds below a second that
//! the duration holds.

use std::time::Duration;
use vstd::prelude::*;

verus! {

/// Nanoseconds in one second.
pub const NANOS_PER_SEC: u32 = 1_000_000_000;

/// The whole seconds that a `Duration` holds: what `Duration::as_secs` returns.
pub uninterp spec fn duration_secs(d: Duration) -> u64;

/// The part of a `Duration` below one second, in nanoseconds: what
/// `Duration::subsec_nanos` returns.
pub uninterp spec fn duration_subsec_nanos(d: Duration) -> u32;

/// `Duration::as_secs`: the number of whole seconds, without the fraction.
pub assume_specification[ Duration::as_secs ](d: &Duration) -> (secs: u64)
    ensures
        secs == duration_secs(*d),
;

/// `Duration::subsec_nanos`: the fraction of a second in nanoseconds, which
/// std documents to be less than one billion.
pub assume_specification[ Duration::subsec_nanos ](d: &Duration) -> (nanos: u32)
    ensures
        nanos == duration_subsec_nanos(*d),
        nanos < NANOS_PER_SEC,
;

/// `Duration::new`: the duration of `secs` seconds and `nanos` nanoseconds,
/// where whole seconds among the nanoseconds are carried over. It panics
/// where that carry overflows the seconds, which `requires` leaves out.
pub assume_specification[ Duration::new ](secs: u64, nanos: u32) -> (d: Duration)
    requires
        secs + nanos / NANOS_PER_SEC <= u64::MAX,
    ensures
        duration_secs(d) == secs + nanos / NANOS_PER_SEC,
        duration_subsec_nanos(d) == nanos % NANOS_PER_SEC,
;

/// The length of `d` in nanoseconds.
pub open spec fn nanos_of(d: Duration) -> nat {
    (duration_secs(d) * NANOS_PER_SEC + duration_subsec_nanos(d)) as nat
}

/// `d` is the duration of exactly `nanos` nanoseconds: its seconds are the
/// whole seconds in `nanos`, and its fraction is what is left of them.
pub open spec fn measures(d: Duration, nanos: int) -> bool {
    &&& 0 <= nanos
    &&& duration_secs(d) == nanos / (NANOS_PER_SEC as int)
    &&& duration_subsec_nanos(d) == nanos % (NANOS_PER_SEC as int)
}

/// `a` is no longer than `b`: fewer seconds, or as many and no larger a
/// fraction.
pub open spec fn no_longer(a: Duration, b: Duration) -> bool {
    duration_secs(a) < duration_secs(b) || (duration_secs(a) == duration_secs(b)
        && duration_subsec_nanos(a) <= duration_subsec_nanos(b))
}

/// A duration that measures `nanos` is `nanos` nanoseconds long.
pub proof fn lemma_measures_length(d: Duration, nanos: int)
    requires
        measures(d, nanos),
    ensures
        nanos_of(d) == nanos,
        duration_subsec_nanos(d) < NANOS_PER_SEC,
{
    vstd::arithmetic::div_mod::lemma_fundamental_div_mod(nanos, NANOS_PER_SEC as int);
}

/// A duration whose fraction is below one second measures its own length.
pub proof fn lemma_length_measures(d: Duration)
    requires
        duration_subsec_nanos(d) < NANOS_PER_SEC,
    ensures
        measures(d, nanos_of(d) as int),
{
    let secs = duration_secs(d) as int;
    let frac = duration_subsec_nanos(d) as int;
    vstd::arithmetic::div_mod::lemma_fundamental_div_mod_converse(
        secs * NANOS_PER_SEC + frac,
        NANOS_PER_SEC as int,
        secs,
        frac,
    );
}

/// Of two times in seconds and a fraction below one second, the one with
/// more whole seconds is the longer.
proof fn lemma_whole_seconds_lead(a_secs: int, a_frac: int, b_secs: int, b_frac: int)
    requires
        0 <= a_frac < NANOS_PER_SEC,
        0 <= b_frac < NANOS_PER_SEC,
    ensures
        a_secs < b_secs ==> a_secs * NANOS_PER_SEC + a_frac < b_secs * NANOS_PER_SEC + b_frac,
{
    if a_secs < b_secs {
        assert(a_secs * NANOS_PER_SEC + NANOS_PER_SEC <= b_secs * NANOS_PER_SEC)
            by (nonlinear_arith)
            requires
                a_secs + 1 <= b_secs,
        ;
    }
}

/// The longer of two measured spans is the longer duration.
pub proof fn lemma_measures_monotone(a: Duration, x: int, b: Duration, y: int)
    requires
        measures(a, x),
        measures(b, y),
        x <= y,
    ensures
        no_longer(a, b),
        x < y ==> !no_longer(b, a),
{
    lemma_measures_length(a, x);
    lemma_measures_length(b, y);
    let sa = duration_secs(a) as int;
    let sb = duration_secs(b) as int;
    lemma_whole_seconds_lead(
        sb,
        duration_subsec_nanos(b) as int,
        sa,
        duration_subsec_nanos(a) as int,
    );
}

/// Whether `a` is at least as long as `b`.
pub(crate) fn at_least(a: Duration, b: Duration) -> (yes: bool)
    ensures
        yes == (nanos_of(a) >= nanos_of(b)),
{
    let a_secs: u64 = a.as_secs();
    let a_frac: u32 = a.subsec_nanos();
    let b_secs: u64 = b.as_secs();
    let b_frac: u32 = b.subsec_nanos();
    proof {
        lemma_whole_seconds_lead(a_secs as int, a_frac as int, b_secs as int, b_frac as int);
        lemma_whole_seconds_lead(b_secs as int, b_frac as int, a_secs as int, a_frac as int);
    }
    a_secs > b_secs || (a_secs == b_secs && a_frac >= b_frac)
}

/// The time from `earlier` to `later`.
pub(crate) fn difference(later: Duration, earlier: Duration) -> (d: Duration)
    requires
        nanos_of(earlier) <= nanos_of(later),
    ensures
        measures(d, nanos_of(later) - nanos_of(earlier)),
{
    let later_secs: u64 = later.as_secs();
    let later_frac: u32 = later.subsec_nanos();
    let earlier_secs: u64 = earlier.as_secs();
    let earlier_frac: u32 = earlier.subsec_nanos();
    proof {
        lemma_whole_seconds_lead(
            earlier_secs as int,
            earlier_frac as int,
            later_secs as int,
            later_frac as int,
        );
    }
    let d = if later_frac >= earlier_frac {
        Duration::new(later_secs - earlier_secs, later_frac - earlier_frac)
    } else {
        Duration::new(later_secs - earlier_secs - 1, later_frac + (NANOS_PER_SEC - earlier_frac))
    };
    proof {
        assert(nanos_of(d) == nanos_of(later) - nanos_of(earlier)) by (nonlinear_arith)
            requires
                nanos_of(later) == later_secs * NANOS_PER_SEC + later_frac,
                nanos_of(earlier) == earlier_secs * NANOS_PER_SEC + earlier_frac,
                nanos_of(d) == duration_secs(d) * NANOS_PER_SEC + duration_subsec_nanos(d),
                later_frac >= earlier_frac ==> duration_secs(d) == later_secs - earlier_secs
                    && duration_subsec_nanos(d) == later_frac - earlier_frac,
                later_frac < earlier_frac ==> duration_secs(d) == later_secs - earlier_secs - 1
                    && duration_subsec_nanos(d) == later_frac + (NANOS_PER_SEC - earlier_frac),
        ;
        lemma_length_measures(d);
    }
    d
}

} // verus!
