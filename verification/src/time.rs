//! Durations (`std::time::Duration`), read and built through their total
//! number of nanoseconds.
use vstd::prelude::*;
use std::time::Duration;
use chrono::{NaiveTime, Timelike};

verus! {

/// Cloning a `Duration` (a `Copy` type) gives the same value.
pub assume_specification[ <Duration as Clone>::clone ](d: &Duration) -> (r: Duration)
    ensures
        r == *d,
;

/// One second in nanoseconds.
pub const NANOS_PER_SEC: u128 = 1_000_000_000;

/// One millisecond in nanoseconds.
pub const NANOS_PER_MILLI: u128 = 1_000_000;

/// What `Duration::as_nanos` returns for `d`.
pub uninterp spec fn spec_duration_as_nanos(d: Duration) -> u128;

/// The length of `d` in nanoseconds.
pub open spec fn nanos(d: Duration) -> int {
    spec_duration_as_nanos(d) as int
}

/// One more than the largest number of nanoseconds a `Duration` can hold
/// (`u64::MAX` seconds and 999_999_999 nanoseconds).
pub open spec fn duration_nanos_bound() -> int {
    (u64::MAX as int + 1) * 1_000_000_000
}

/// `Duration::as_nanos`: the total number of nanoseconds of `d`. A `Duration`
/// holds at most `u64::MAX` whole seconds, so the result stays below
/// `duration_nanos_bound()`.
#[verifier::external_body]
pub fn duration_as_nanos(d: Duration) -> (r: u128)
    ensures
        r == spec_duration_as_nanos(d),
        r < duration_nanos_bound(),
{
    d.as_nanos()
}

/// `Duration::new(secs, nanos)` for `nanos` below one second: the duration of
/// `secs` seconds and `nanos` nanoseconds (the documentation says the
/// nanoseconds carry into the seconds; below one second nothing carries, so
/// nothing can overflow).
#[verifier::external_body]
pub fn duration_new(secs: u64, nanos: u32) -> (r: Duration)
    requires
        nanos < 1_000_000_000,
    ensures
        spec_duration_as_nanos(r) == secs as int * 1_000_000_000 + nanos as int,
{
    Duration::new(secs, nanos)
}

/// The duration of `n` nanoseconds.
pub fn duration_from_total_nanos(n: u128) -> (r: Duration)
    requires
        n < duration_nanos_bound(),
    ensures
        nanos(r) == n,
{
    let secs = (n / NANOS_PER_SEC) as u64;
    let sub = (n % NANOS_PER_SEC) as u32;
    duration_new(secs, sub)
}

/// `Duration::from_millis(ms)`.
pub fn duration_from_millis(ms: u64) -> (r: Duration)
    ensures
        nanos(r) == ms as int * 1_000_000,
{
    let secs = ms / 1000;
    let sub = ((ms % 1000) as u32) * 1_000_000;
    duration_new(secs, sub)
}

/// The whole milliseconds of `d` (what `Duration::as_millis` gives).
pub fn duration_as_millis(d: Duration) -> (r: u128)
    ensures
        r == nanos(d) / 1_000_000,
{
    duration_as_nanos(d) / NANOS_PER_MILLI
}

/// The whole seconds of `d` (what `Duration::as_secs` gives).
pub fn duration_as_secs(d: Duration) -> (r: u64)
    ensures
        r == nanos(d) / 1_000_000_000,
{
    let n = duration_as_nanos(d);
    (n / NANOS_PER_SEC) as u64
}

/// The nanoseconds past the whole seconds of `d` (what
/// `Duration::subsec_nanos` gives).
pub fn duration_subsec_nanos(d: Duration) -> (r: u32)
    ensures
        r == nanos(d) % 1_000_000_000,
        r < 1_000_000_000,
{
    let n = duration_as_nanos(d);
    (n % NANOS_PER_SEC) as u32
}

/// Whether `a` is strictly shorter than `b`.
pub fn duration_lt(a: Duration, b: Duration) -> (r: bool)
    ensures
        r == (nanos(a) < nanos(b)),
{
    duration_as_nanos(a) < duration_as_nanos(b)
}

/// `a + b`, the sum being within what a `Duration` holds.
pub fn duration_add(a: Duration, b: Duration) -> (r: Duration)
    requires
        nanos(a) + nanos(b) < duration_nanos_bound(),
    ensures
        nanos(r) == nanos(a) + nanos(b),
{
    duration_from_total_nanos(duration_as_nanos(a) + duration_as_nanos(b))
}

/// `a - b` for `b` no longer than `a`.
pub fn duration_sub(a: Duration, b: Duration) -> (r: Duration)
    requires
        nanos(b) <= nanos(a),
    ensures
        nanos(r) == nanos(a) - nanos(b),
{
    duration_from_total_nanos(duration_as_nanos(a) - duration_as_nanos(b))
}


/// A time of day (`chrono::NaiveTime`).
#[verifier::external_type_specification]
#[verifier::external_body]
pub struct ExNaiveTime(NaiveTime);

/// What `Timelike::num_seconds_from_midnight` returns for `t`.
pub uninterp spec fn spec_num_seconds_from_midnight(t: NaiveTime) -> u32;

/// What `Timelike::nanosecond` returns for `t`.
pub uninterp spec fn spec_nanosecond(t: NaiveTime) -> u32;

/// `NaiveTime::from_num_seconds_from_midnight_opt`: the time `secs` seconds
/// and `nano` nanoseconds after midnight; `None` for 86 400 seconds or more,
/// for 2 000 000 000 nanoseconds or more, and for a second's nanoseconds
/// past 999 999 999 (a leap second) outside the last second of a minute.
/// The time made gives back `secs` and `nano` as its seconds from midnight
/// and its nanoseconds.
#[verifier::external_body]
pub fn naive_time_from_seconds(secs: u32, nano: u32) -> (r: Option<NaiveTime>)
    ensures
        r is Some <==> (secs < 86_400 && nano < 2_000_000_000 && (nano < 1_000_000_000 || secs % 60 == 59)),
        r matches Some(t) ==> spec_num_seconds_from_midnight(t) == secs && spec_nanosecond(t) == nano,
{
    NaiveTime::from_num_seconds_from_midnight_opt(secs, nano)
}

/// `Timelike::num_seconds_from_midnight`: the whole seconds of `t` since
/// midnight, below 86 400.
#[verifier::external_body]
pub fn naive_time_seconds(t: NaiveTime) -> (r: u32)
    ensures
        r == spec_num_seconds_from_midnight(t),
        r < 86_400,
{
    t.num_seconds_from_midnight()
}

/// `Timelike::nanosecond`: the nanoseconds of `t` past its whole second,
/// below 2 000 000 000 (from 1 000 000 000 on for a leap second).
#[verifier::external_body]
pub fn naive_time_nanosecond(t: NaiveTime) -> (r: u32)
    ensures
        r == spec_nanosecond(t),
        r < 2_000_000_000,
{
    t.nanosecond()
}

/// The length of a day in seconds.
pub const SECS_PER_DAY: u64 = 86_400;

/// The time of day a duration reaches after midnight, wrapping around every
/// 24 hours.
pub fn duration_to_naive_time(d: Duration) -> (r: NaiveTime)
    ensures
        spec_num_seconds_from_midnight(r) == (nanos(d) / 1_000_000_000) % 86_400,
        spec_nanosecond(r) == nanos(d) % 1_000_000_000,
{
    let secs = duration_as_secs(d) % SECS_PER_DAY;
    let sub = duration_subsec_nanos(d);
    naive_time_from_seconds(secs as u32, sub).unwrap()
}

/// The time since midnight of a time of day (a leap second counting as the
/// second after it).
pub fn naive_time_to_duration(t: NaiveTime) -> (r: Duration)
    ensures
        nanos(r) == spec_num_seconds_from_midnight(t) as int * 1_000_000_000 + spec_nanosecond(t) as int,
{
    let secs = naive_time_seconds(t) as u128;
    let sub = naive_time_nanosecond(t) as u128;
    duration_from_total_nanos(secs * NANOS_PER_SEC + sub)
}

/// Storing a position as a time of day and reading it back gives the
/// position within its day: what the playback history keeps is the
/// position modulo 24 hours.
pub proof fn law_time_of_day_round_trip(d: Duration, t: NaiveTime)
    requires
        spec_num_seconds_from_midnight(t) == (nanos(d) / 1_000_000_000) % 86_400,
        spec_nanosecond(t) == nanos(d) % 1_000_000_000,
    ensures
        spec_num_seconds_from_midnight(t) as int * 1_000_000_000 + spec_nanosecond(t) as int
            == nanos(d) % 86_400_000_000_000int,
{
    let n = nanos(d);
    let s = n / 1_000_000_000;
    assert(n == s * 1_000_000_000 + n % 1_000_000_000);
    assert(s == (s / 86_400) * 86_400 + s % 86_400);
    assert(n == (s / 86_400) * (86_400 * 1_000_000_000) + (s % 86_400) * 1_000_000_000 + n % 1_000_000_000) by (nonlinear_arith)
        requires
            n == s * 1_000_000_000 + n % 1_000_000_000,
            s == (s / 86_400) * 86_400 + s % 86_400;
    let rest = (s % 86_400) * 1_000_000_000 + n % 1_000_000_000;
    assert(0 <= rest < 86_400 * 1_000_000_000);
    vstd::arithmetic::div_mod::lemma_fundamental_div_mod_converse(n, 86_400_000_000_000int, s / 86_400, rest);
}

} // verus!
