//! Durations as whole nanoseconds, and their stored form (seconds and
//! sub-second nanoseconds).
use vstd::prelude::*;

verus! {

/// Nanoseconds in one second.
pub const NANOS_PER_SEC: u64 = 1_000_000_000;

/// The largest number of whole minutes that fits in a duration.
pub const MAX_MINUTES: u64 = 307_445_734;

/// The largest number of whole seconds that fits in a duration.
pub const MAX_SECONDS: u64 = 18_446_744_073;

/// The duration given by whole seconds and extra nanoseconds, as a number of
/// nanoseconds.
pub open spec fn nanos_of(secs: nat, nanos: nat) -> nat {
    secs * 1_000_000_000 + nanos
}

/// `m` whole minutes, in nanoseconds.
pub fn minutes(m: u64) -> (d: u64)
    requires
        m <= MAX_MINUTES,
    ensures
        d == m * 60 * 1_000_000_000,
{
    m * 60 * NANOS_PER_SEC
}

/// `s` whole seconds, in nanoseconds.
pub fn seconds(s: u64) -> (d: u64)
    requires
        s <= MAX_SECONDS,
    ensures
        d == s * 1_000_000_000,
{
    s * NANOS_PER_SEC
}

/// The whole minutes in `d`.
pub fn whole_minutes(d: u64) -> (m: u64)
    ensures
        m == d / 1_000_000_000 / 60,
{
    d / NANOS_PER_SEC / 60
}

/// Splits `d` into whole seconds and the nanoseconds left over, the form in
/// which a duration is stored.
pub fn to_secs_nanos(d: u64) -> (r: (u64, u32))
    ensures
        r.1 < 1_000_000_000,
        nanos_of(r.0 as nat, r.1 as nat) == d,
{
    let secs = d / NANOS_PER_SEC;
    let rest = d % NANOS_PER_SEC;
    assert(secs * 1_000_000_000 + rest == d) by (nonlinear_arith)
        requires
            secs == d / 1_000_000_000,
            rest == d % 1_000_000_000,
    ;
    (secs, rest as u32)
}

/// The duration stored as `secs` seconds and `nanos` nanoseconds, or `None`
/// where it does not fit in a `u64` of nanoseconds. `nanos` may exceed one
/// second; the excess carries into the seconds.
pub fn from_secs_nanos(secs: u64, nanos: u32) -> (r: Option<u64>)
    ensures
        nanos_of(secs as nat, nanos as nat) <= u64::MAX ==> r == Some(
            nanos_of(secs as nat, nanos as nat) as u64,
        ),
        nanos_of(secs as nat, nanos as nat) > u64::MAX ==> r is None,
{
    if secs > MAX_SECONDS {
        assert(secs * 1_000_000_000 > u64::MAX) by (nonlinear_arith)
            requires
                secs > 18_446_744_073,
        ;
        return None;
    }
    let whole = secs * NANOS_PER_SEC;
    if whole > u64::MAX - nanos as u64 {
        None
    } else {
        Some(whole + nanos as u64)
    }
}

} // verus!
