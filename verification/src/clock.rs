//! Time domains: where "now" comes from, and what the store needs of a point in
//! time.

use std::time::{Duration, Instant, SystemTime};
use vstd::prelude::*;

verus! {

#[verifier::external_type_specification]
#[verifier::external_body]
pub struct ExSystemTime(std::time::SystemTime);

#[verifier::external_type_specification]
#[verifier::external_body]
pub struct ExInstant(std::time::Instant);

/// The length of a duration in nanoseconds, as `Duration::as_nanos` gives it.
pub uninterp spec fn duration_nanos(d: Duration) -> nat;

/// Where a wall-clock time lies on its time line, in nanoseconds.
pub uninterp spec fn wall_clock_position(t: SystemTime) -> int;

/// Whether `SystemTime::checked_add` finds a wall-clock time `ttl` after `t`.
pub uninterp spec fn wall_clock_reaches(t: SystemTime, ttl: Duration) -> bool;

/// Where the wall-clock time lies that `SystemTime::checked_add` computes for
/// `t` and `ttl`. The wall clock keeps time in steps that the operating system
/// chooses, so this need not be the whole of `ttl` after `t`.
pub uninterp spec fn wall_clock_sum(t: SystemTime, ttl: Duration) -> int;

/// Where a monotonic instant lies on its time line, in nanoseconds.
pub uninterp spec fn monotonic_position(t: Instant) -> int;

/// Whether `Instant::checked_add` finds an instant `ttl` after `t`.
pub uninterp spec fn monotonic_reaches(t: Instant, ttl: Duration) -> bool;

/// A time domain: a kind of point in time that can be sampled, moved forward by a
/// duration and compared with another point of the same domain.
pub trait TimeNow: Sized {
    /// Where this point lies on the domain's time line, in nanoseconds from an
    /// origin that the domain fixes.
    spec fn position(&self) -> int;

    /// Whether the domain can represent the point that lies `ttl` after this one.
    spec fn reaches(&self, ttl: Duration) -> bool;

    /// Where the point lies that the domain computes for this point moved
    /// forward by `ttl`. A domain that keeps time in steps coarser than a
    /// nanosecond may fall short of the whole of `ttl`.
    spec fn sum(&self, ttl: Duration) -> int;

    /// The current time. Nothing is promised of it: two samples may be equal, and
    /// a wall clock may even run backwards.
    fn now() -> Self;

    /// This point moved forward by `ttl`, or `None` where the domain cannot
    /// represent that. The point returned is never earlier than this one and
    /// never more than `ttl` after it.
    fn later(&self, ttl: Duration) -> (r: Option<Self>)
        ensures
            r is Some <==> self.reaches(ttl),
            r matches Some(t) ==> t.position() == self.sum(ttl),
            r matches Some(t) ==> self.position() <= t.position() <= self.position()
                + duration_nanos(ttl),
    ;

    /// Whether this point is strictly later than `other`.
    fn is_after(&self, other: &Self) -> (r: bool)
        ensures
            r == (self.position() > other.position()),
    ;
}

/// Whether the domain moves `t` forward by the whole of `ttl`, to the
/// nanosecond.
pub open spec fn adds_exactly<T: TimeNow>(t: T, ttl: Duration) -> bool {
    t.sum(ttl) == t.position() + duration_nanos(ttl)
}

/// `Duration::as_nanos`: the length of `d` in nanoseconds. Trusted: the number
/// returned is the length that `duration_nanos` names.
#[verifier::external_body]
pub(crate) fn nanos_of(d: Duration) -> (n: u128)
    ensures
        n == duration_nanos(d),
{
    d.as_nanos()
}

/// `SystemTime::now`: the wall clock's current reading. Trusted, with nothing
/// claimed of the value.
#[verifier::external_body]
fn wall_clock_now() -> SystemTime {
    SystemTime::now()
}

/// `SystemTime::checked_add`. Trusted: the call answers `Some` exactly on the
/// arguments for which `wall_clock_reaches` holds, and the time it then returns
/// lies at `wall_clock_sum`, which is not before `t` and not more than `ttl`
/// after it. How close to the whole of `ttl` it comes depends on the steps in
/// which the operating system keeps time, and nothing is claimed of that.
#[verifier::external_body]
fn wall_clock_checked_add(t: &SystemTime, ttl: Duration) -> (r: Option<SystemTime>)
    ensures
        r is Some <==> wall_clock_reaches(*t, ttl),
        r matches Some(u) ==> wall_clock_position(u) == wall_clock_sum(*t, ttl),
        r matches Some(u) ==> wall_clock_position(*t) <= wall_clock_position(u)
            <= wall_clock_position(*t) + duration_nanos(ttl),
{
    t.checked_add(ttl)
}

/// `>` on `SystemTime`. Trusted: it holds exactly where the left time lies
/// further along the time line than the right one.
#[verifier::external_body]
fn wall_clock_after(a: &SystemTime, b: &SystemTime) -> (r: bool)
    ensures
        r == (wall_clock_position(*a) > wall_clock_position(*b)),
{
    a > b
}

/// `Instant::now`: the monotonic clock's current reading. Trusted, with nothing
/// claimed of the value.
#[verifier::external_body]
fn monotonic_now() -> Instant {
    Instant::now()
}

/// `Instant::checked_add`. Trusted: the call answers `Some` exactly on the
/// arguments for which `monotonic_reaches` holds, and the instant it then
/// returns lies the whole of `ttl` after `t`.
#[verifier::external_body]
fn monotonic_checked_add(t: &Instant, ttl: Duration) -> (r: Option<Instant>)
    ensures
        r is Some <==> monotonic_reaches(*t, ttl),
        r matches Some(u) ==> monotonic_position(u) == monotonic_position(*t) + duration_nanos(ttl),
{
    t.checked_add(ttl)
}

/// `>` on `Instant`. Trusted: it holds exactly where the left instant lies
/// further along the time line than the right one.
#[verifier::external_body]
fn monotonic_after(a: &Instant, b: &Instant) -> (r: bool)
    ensures
        r == (monotonic_position(*a) > monotonic_position(*b)),
{
    a > b
}

/// Wall-clock time. It follows the system clock, adjustments included.
impl TimeNow for SystemTime {
    open spec fn position(&self) -> int {
        wall_clock_position(*self)
    }

    open spec fn reaches(&self, ttl: Duration) -> bool {
        wall_clock_reaches(*self, ttl)
    }

    open spec fn sum(&self, ttl: Duration) -> int {
        wall_clock_sum(*self, ttl)
    }

    fn now() -> Self {
        wall_clock_now()
    }

    fn later(&self, ttl: Duration) -> (r: Option<Self>) {
        wall_clock_checked_add(self, ttl)
    }

    fn is_after(&self, other: &Self) -> (r: bool) {
        wall_clock_after(self, other)
    }
}

/// Monotonic time. It never runs backwards, and means nothing outside the
/// process that sampled it.
impl TimeNow for Instant {
    open spec fn position(&self) -> int {
        monotonic_position(*self)
    }

    open spec fn reaches(&self, ttl: Duration) -> bool {
        monotonic_reaches(*self, ttl)
    }

    open spec fn sum(&self, ttl: Duration) -> int {
        monotonic_position(*self) + duration_nanos(ttl)
    }

    fn now() -> Self {
        monotonic_now()
    }

    fn later(&self, ttl: Duration) -> (r: Option<Self>) {
        monotonic_checked_add(self, ttl)
    }

    fn is_after(&self, other: &Self) -> (r: bool) {
        monotonic_after(self, other)
    }
}

} // verus!
