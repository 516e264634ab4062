//! Instants on the UTC time line and the recency rule built on them.

use vstd::prelude::*;

verus! {

/// Nanoseconds in one second.
pub const NANOS_PER_SECOND: i128 = 1_000_000_000;

/// Nanoseconds in one day of 86 400 seconds.
pub const NANOS_PER_DAY: i128 = 86_400_000_000_000;

/// A point on the UTC time line: whole seconds since 1970-01-01T00:00:00Z and
/// the nanoseconds past that second.
///
/// Instants are ordered by their place on the time line, see
/// [`UtcInstant::total_nanos`]. A count of a thousand million nanoseconds or
/// more, by which a leap second is written, runs into the following second.
#[derive(Debug, Clone, Copy, PartialEq, Eq, Hash)]
pub struct UtcInstant {
    pub secs: i64,
    pub nanos: u32,
}

impl UtcInstant {
    /// The position of the instant on the time line, in nanoseconds since the epoch.
    pub open spec fn total_nanos(self) -> int {
        self.secs * NANOS_PER_SECOND + self.nanos
    }

    /// Whether `self` comes strictly before `other`.
    pub open spec fn precedes(self, other: UtcInstant) -> bool {
        self.total_nanos() < other.total_nanos()
    }

    /// The later of two instants; `self` when they are equal.
    pub open spec fn later_of(self, other: UtcInstant) -> UtcInstant {
        if self.precedes(other) {
            other
        } else {
            self
        }
    }

    /// The instant `nanos` nanoseconds after the second `secs` of the epoch.
    pub fn new(secs: i64, nanos: u32) -> (instant: UtcInstant)
        ensures
            instant == (UtcInstant { secs, nanos }),
    {
        UtcInstant { secs, nanos }
    }

    /// The place of the instant on the time line, in nanoseconds since the epoch.
    pub fn nanos_since_epoch(&self) -> (total: i128)
        ensures
            total == self.total_nanos(),
    {
        (self.secs as i128) * NANOS_PER_SECOND + (self.nanos as i128)
    }

    /// Whether `self` comes strictly before `other`.
    pub fn is_before(&self, other: &UtcInstant) -> (before: bool)
        ensures
            before == self.precedes(*other),
    {
        self.nanos_since_epoch() < other.nanos_since_epoch()
    }

    /// The later of two instants; `self` when they are equal.
    pub fn max(self, other: UtcInstant) -> (later: UtcInstant)
        ensures
            later == self.later_of(other),
    {
        if self.is_before(&other) {
            other
        } else {
            self
        }
    }
}

/// Quotient of `a` by a positive `b`, rounded toward zero.
pub open spec fn div_toward_zero(a: int, b: int) -> int
    recommends
        b > 0,
{
    if a >= 0 {
        a / b
    } else {
        -((-a) / b)
    }
}

/// Whole days from `instant` to `now`, rounded toward zero; negative when
/// `instant` lies after `now`.
pub open spec fn days_between(now: UtcInstant, instant: UtcInstant) -> int {
    div_toward_zero(now.total_nanos() - instant.total_nanos(), NANOS_PER_DAY as int)
}

/// The recency rule: `instant` is within `n` days of `now` when no more than
/// `n` whole days lie between them. Only the upper bound is tested, so every
/// instant after `now` is within any window of `n >= 0` days.
pub open spec fn recent(now: UtcInstant, n: int, instant: UtcInstant) -> bool {
    days_between(now, instant) <= n
}

/// Whole days from `instant` to `now`, rounded toward zero.
pub fn whole_days_between(now: &UtcInstant, instant: &UtcInstant) -> (days: i64)
    ensures
        days == days_between(*now, *instant),
{
    let elapsed: i128 = now.nanos_since_epoch() - instant.nanos_since_epoch();
    let days: i128 = elapsed / NANOS_PER_DAY;
    days as i64
}

/// Whether `date` is within `n` days of `now`.
pub fn within_n_days_at(now: &UtcInstant, n: i64, date: &UtcInstant) -> (within: bool)
    ensures
        within == recent(*now, n as int, *date),
{
    whole_days_between(now, date) <= n
}

/// The current instant, read with `chrono::Utc::now` and given by chrono's
/// `timestamp` and `timestamp_subsec_nanos`. Every call may return another
/// instant: nothing is promised of the result. chrono expects of the system
/// clock that it is not set back before 1970.
#[verifier::external_body]
pub(crate) fn now() -> UtcInstant {
    let current = chrono::Utc::now();
    UtcInstant { secs: current.timestamp(), nanos: current.timestamp_subsec_nanos() }
}

/// Returns true if the passed date is within `n` days from the current date.
/// The clock is read once; [`within_n_days_at`] decides.
pub fn within_n_days(n: i64, date: &UtcInstant) -> (within: bool)
    ensures
        exists|now: UtcInstant| within == recent(now, n as int, *date),
{
    let current = now();
    within_n_days_at(&current, n, date)
}

/// Instants are totally ordered by their place on the time line: of two
/// instants one precedes the other or both are at the same place, and what
/// precedes an instant precedes all that it precedes. The later of two is
/// one of them and precedes neither.
pub proof fn instants_are_ordered(a: UtcInstant, b: UtcInstant, c: UtcInstant)
    ensures
        !a.precedes(a),
        a.precedes(b) || b.precedes(a) || a.total_nanos() == b.total_nanos(),
        !(a.precedes(b) && b.precedes(a)),
        a.precedes(b) && b.precedes(c) ==> a.precedes(c),
        a.later_of(b) == a || a.later_of(b) == b,
        !a.later_of(b).precedes(a) && !a.later_of(b).precedes(b),
        a.secs == b.secs && a.nanos == b.nanos ==> a == b,
{
}

/// The window of the recency rule in nanoseconds: for `n >= 0` an instant is
/// within `n` days of `now` exactly when less than `n + 1` days have passed
/// since, so that an instant exactly `n` days old is in and one of `n + 1`
/// days is out; for `n < 0` exactly when it lies `-n` days or more after `now`.
pub proof fn recent_window(now: UtcInstant, n: int, instant: UtcInstant)
    ensures
        n >= 0 ==> (recent(now, n, instant) <==> now.total_nanos() - instant.total_nanos() < (n
            + 1) * NANOS_PER_DAY),
        n < 0 ==> (recent(now, n, instant) <==> now.total_nanos() - instant.total_nanos() <= n
            * NANOS_PER_DAY),
{
    let elapsed = now.total_nanos() - instant.total_nanos();
    let day = 86_400_000_000_000int;
    if elapsed >= 0 {
        vstd::arithmetic::div_mod::lemma_fundamental_div_mod(elapsed, day);
        vstd::arithmetic::div_mod::lemma_mod_bound(elapsed, day);
        let q = elapsed / day;
        assert(elapsed == day * q + elapsed % day);
        if q <= n {
            assert(day * q <= day * n) by (nonlinear_arith)
                requires
                    q <= n,
                    day > 0,
            ;
            assert((n + 1) * day == day * n + day) by (nonlinear_arith);
        } else {
            assert(day * q >= day * (n + 1)) by (nonlinear_arith)
                requires
                    q >= n + 1,
                    day > 0,
            ;
            assert((n + 1) * day == day * (n + 1)) by (nonlinear_arith);
        }
        if n < 0 {
            assert(n * day < 0) by (nonlinear_arith)
                requires
                    n < 0,
                    day > 0,
            ;
        }
    } else {
        let back = -elapsed;
        vstd::arithmetic::div_mod::lemma_fundamental_div_mod(back, day);
        vstd::arithmetic::div_mod::lemma_mod_bound(back, day);
        vstd::arithmetic::div_mod::lemma_div_pos_is_pos(back, day);
        let q = back / day;
        assert(back == day * q + back % day);
        if n >= 0 {
            assert((n + 1) * day > 0) by (nonlinear_arith)
                requires
                    n >= 0,
                    day > 0,
            ;
        } else {
            if -q <= n {
                assert(day * q >= day * (-n)) by (nonlinear_arith)
                    requires
                        q >= -n,
                        day > 0,
                ;
                assert(n * day == -(day * (-n))) by (nonlinear_arith);
            } else {
                assert(day * q <= day * (-n - 1)) by (nonlinear_arith)
                    requires
                        q <= -n - 1,
                        day > 0,
                ;
                assert(n * day == -(day * (-n - 1)) - day) by (nonlinear_arith);
            }
        }
    }
}

/// The edge of the window: an instant exactly `n` days before `now` is
/// within `n` days, one exactly `n + 1` days before `now` is not.
pub proof fn window_boundary(now: UtcInstant, n: int, instant: UtcInstant)
    requires
        n >= 0,
    ensures
        now.total_nanos() - instant.total_nanos() == n * NANOS_PER_DAY ==> recent(now, n, instant),
        now.total_nanos() - instant.total_nanos() == (n + 1) * NANOS_PER_DAY ==> !recent(
            now,
            n,
            instant,
        ),
{
    recent_window(now, n, instant);
    assert(n * 86_400_000_000_000 < (n + 1) * 86_400_000_000_000) by (nonlinear_arith);
}

/// An instant that is not before `now` is within every window of `n >= 0`
/// days: the rule has no lower bound.
pub proof fn future_is_recent(now: UtcInstant, n: int, instant: UtcInstant)
    requires
        n >= 0,
        !instant.precedes(now),
    ensures
        recent(now, n, instant),
{
    recent_window(now, n, instant);
    assert((n + 1) * 86_400_000_000_000 > 0) by (nonlinear_arith)
        requires
            n >= 0,
    ;
}

} // verus!
