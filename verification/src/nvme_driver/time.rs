//! Points in time for I/O requests.
use vstd::prelude::*;
use std::time::{Duration, Instant, SystemTime};

verus! {

#[verifier::external_type_specification]
#[verifier::external_body]
pub struct ExInstant(Instant);

/// `Instant::now`: the current time; nothing is stated of it.
#[verifier::external_body]
pub(crate) fn now() -> Instant {
    Instant::now()
}

/// What `Instant::checked_add` gives for `t` and `d`: `t` moved `d` later,
/// or `None` when that point cannot be represented. It depends on the two
/// values alone.
pub uninterp spec fn instant_plus(t: Instant, d: Duration) -> Option<Instant>;

/// Whether `a` is later than `b` (`Instant > Instant`). It depends on the two
/// values alone.
pub uninterp spec fn later_than(a: Instant, b: Instant) -> bool;

/// `Instant::checked_add`: its result is the one `instant_plus` names;
/// nothing more is stated of it.
#[verifier::external_body]
pub(crate) fn instant_checked_add(t: Instant, d: Duration) -> (r: Option<Instant>)
    ensures
        r == instant_plus(t, d),
{
    t.checked_add(d)
}

/// `Instant > Instant` (`PartialOrd::gt`): its result is the one
/// `later_than` names. `Instant` is `Ord`, so `>` is a strict total order:
/// never both ways, transitive, and one way or the other for two different
/// instants.
#[verifier::external_body]
pub(crate) fn instant_after(a: &Instant, b: &Instant) -> (r: bool)
    ensures
        r == later_than(*a, *b),
        r ==> !later_than(*b, *a),
        !r ==> *a == *b || later_than(*b, *a),
        forall|c: Instant| #![trigger later_than(*b, c)] r && later_than(*b, c) ==> later_than(*a, c),
        forall|c: Instant| #![trigger later_than(c, *a)] r && later_than(c, *a) ==> later_than(c, *b),
{
    *a > *b
}

/// `Instant::elapsed`: the time since `t` (zero if `t` is later than now);
/// nothing is stated of it, as it rests on the clock.
#[verifier::external_body]
pub(crate) fn instant_elapsed(t: &Instant) -> Duration {
    t.elapsed()
}

#[verifier::external_type_specification]
#[verifier::external_body]
pub struct ExSystemTime(SystemTime);

/// `SystemTime::now`: the wall-clock time; nothing is stated of it.
#[verifier::external_body]
pub(crate) fn system_now() -> SystemTime {
    SystemTime::now()
}

/// `SystemTime::duration_since` the Unix epoch: `None` for a time before
/// it; nothing more is stated of it.
#[verifier::external_body]
pub(crate) fn since_epoch(t: SystemTime) -> Option<Duration> {
    t.duration_since(SystemTime::UNIX_EPOCH).ok()
}

/// The whole nanoseconds of `d`, as `Duration::as_nanos` gives them. It
/// depends on `d` alone.
pub uninterp spec fn nanos_of(d: Duration) -> u128;

/// `Duration::as_nanos`: its result is the one `nanos_of` names; nothing
/// more is stated of it, as a `Duration` is opaque here.
#[verifier::external_body]
pub(crate) fn duration_nanos(d: Duration) -> (r: u128)
    ensures
        r == nanos_of(d),
{
    d.as_nanos()
}

/// `Duration::from_millis`: a span of `ms` milliseconds, so `ms` million
/// whole nanoseconds.
#[verifier::external_body]
pub(crate) fn duration_from_millis(ms: u64) -> (r: Duration)
    ensures
        nanos_of(r) == ms * 1_000_000,
{
    Duration::from_millis(ms)
}

} // verus!
