//! Lengths of time.
//!
//! [`Duration`] is std's type. Everything this crate knows of it comes from its two parts, the
//! whole seconds and the nanoseconds beyond them, and from the constructor that takes the two.
use vstd::prelude::*;
use core::time::Duration;

verus! {

/// Nanoseconds in a second.
pub const NANOS_PER_SEC: u32 = 1_000_000_000;

/// The whole seconds of a duration: what `Duration::as_secs` returns.
pub uninterp spec fn duration_secs(d: Duration) -> u64;

/// The nanoseconds beyond the whole seconds: what `Duration::subsec_nanos` returns.
pub uninterp spec fn duration_subsec_nanos(d: Duration) -> u32;

/// `Duration::as_secs`: the number of whole seconds.
pub assume_specification[ Duration::as_secs ](d: &Duration) -> (secs: u64)
    ensures
        secs == duration_secs(*d),
;

/// `Duration::subsec_nanos`: the fractional part, which is always less than one second.
pub assume_specification[ Duration::subsec_nanos ](d: &Duration) -> (beyond: u32)
    ensures
        beyond == duration_subsec_nanos(*d),
        beyond < NANOS_PER_SEC,
;

/// `Duration::new`: the duration with the given whole seconds and additional nanoseconds. With
/// less than a second's worth of nanoseconds nothing carries over, so the parts are kept.
pub assume_specification[ Duration::new ](secs: u64, beyond: u32) -> (d: Duration)
    requires
        beyond < NANOS_PER_SEC,
    ensures
        duration_secs(d) == secs,
        duration_subsec_nanos(d) == beyond,
;

/// The length of a duration in nanoseconds.
pub open spec fn nanos(d: Duration) -> nat {
    (duration_secs(d) * NANOS_PER_SEC + duration_subsec_nanos(d)) as nat
}

/// One nanosecond more than the longest duration.
pub open spec fn nanos_limit() -> nat {
    ((u64::MAX + 1) * NANOS_PER_SEC) as nat
}

/// The length of a duration holds both of its parts: the whole seconds and the nanoseconds
/// beyond them can be told from it.
pub proof fn law_length_tells_the_parts(d: Duration)
    requires
        duration_subsec_nanos(d) < 1_000_000_000,
    ensures
        nanos(d) / 1_000_000_000 == duration_secs(d),
        nanos(d) % 1_000_000_000 == duration_subsec_nanos(d),
{
}

/// Every duration is below the limit, and the longest one by a nanosecond only.
pub proof fn law_limit_is_tight(d: Duration)
    requires
        duration_subsec_nanos(d) < 1_000_000_000,
    ensures
        nanos(d) < nanos_limit(),
        duration_secs(d) == u64::MAX && duration_subsec_nanos(d) == 999_999_999 ==> nanos(d) + 1
            == nanos_limit(),
{
}

/// The duration of the given number of seconds.
pub fn from_secs(secs: u64) -> (d: Duration)
    ensures
        duration_secs(d) == secs,
        duration_subsec_nanos(d) == 0,
        nanos(d) == secs * NANOS_PER_SEC,
{
    Duration::new(secs, 0)
}

/// The duration of the given number of milliseconds.
pub fn from_millis(millis: u64) -> (d: Duration)
    ensures
        duration_secs(d) == millis / 1_000,
        duration_subsec_nanos(d) == (millis % 1_000) * 1_000_000,
        nanos(d) == millis * 1_000_000,
{
    Duration::new(millis / 1_000, (millis % 1_000) as u32 * 1_000_000)
}

/// The duration of the given number of microseconds.
pub fn from_micros(micros: u64) -> (d: Duration)
    ensures
        duration_secs(d) == micros / 1_000_000,
        duration_subsec_nanos(d) == (micros % 1_000_000) * 1_000,
        nanos(d) == micros * 1_000,
{
    Duration::new(micros / 1_000_000, (micros % 1_000_000) as u32 * 1_000)
}

/// The sum of two durations.
pub fn plus(a: Duration, b: Duration) -> (d: Duration)
    requires
        nanos(a) + nanos(b) < nanos_limit(),
    ensures
        nanos(d) == nanos(a) + nanos(b),
{
    let beyond: u32 = a.subsec_nanos() + b.subsec_nanos();
    if beyond < NANOS_PER_SEC {
        Duration::new(a.as_secs() + b.as_secs(), beyond)
    } else {
        Duration::new(a.as_secs() + b.as_secs() + 1, beyond - NANOS_PER_SEC)
    }
}

/// The difference of two durations, the first of which is not the shorter one.
pub fn minus(a: Duration, b: Duration) -> (d: Duration)
    requires
        nanos(b) <= nanos(a),
    ensures
        nanos(d) == nanos(a) - nanos(b),
{
    let a_beyond: u32 = a.subsec_nanos();
    let b_beyond: u32 = b.subsec_nanos();
    if b_beyond <= a_beyond {
        Duration::new(a.as_secs() - b.as_secs(), a_beyond - b_beyond)
    } else {
        Duration::new(a.as_secs() - b.as_secs() - 1, NANOS_PER_SEC - b_beyond + a_beyond)
    }
}

/// Half of a duration, rounded down to a nanosecond.
pub fn half(d: Duration) -> (h: Duration)
    ensures
        nanos(h) == nanos(d) / 2,
{
    let secs: u64 = d.as_secs();
    let beyond: u32 = d.subsec_nanos();
    if secs % 2 == 0 {
        Duration::new(secs / 2, beyond / 2)
    } else {
        Duration::new(secs / 2, (NANOS_PER_SEC + beyond) / 2)
    }
}

/// Tells whether twice a duration is still a duration.
pub fn can_double(d: Duration) -> (b: bool)
    ensures
        b == (2 * nanos(d) < nanos_limit()),
{
    let carry: u64 = if d.subsec_nanos() < NANOS_PER_SEC / 2 {
        0
    } else {
        1
    };
    d.as_secs() <= (u64::MAX - carry) / 2
}

/// Twice a duration.
pub fn double(d: Duration) -> (t: Duration)
    requires
        2 * nanos(d) < nanos_limit(),
    ensures
        nanos(t) == 2 * nanos(d),
{
    plus(d, d)
}

/// Tells whether one duration is shorter than another.
pub fn shorter(a: Duration, b: Duration) -> (r: bool)
    ensures
        r == (nanos(a) < nanos(b)),
{
    let a_beyond: u32 = a.subsec_nanos();
    let b_beyond: u32 = b.subsec_nanos();
    a.as_secs() < b.as_secs() || (a.as_secs() == b.as_secs() && a_beyond < b_beyond)
}

} // verus!
