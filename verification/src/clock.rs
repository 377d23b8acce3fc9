//! Instants on the UTC time line and the whole time spans between them.

use vstd::prelude::*;

verus! {

/// Nanoseconds in one second.
pub const NANOS_PER_SEC: u32 = 1_000_000_000;

/// A point in time: whole seconds since the Unix epoch and the nanoseconds past them.
#[derive(Clone, Copy, Debug, PartialEq, Eq, Structural)]
pub struct Timestamp {
    pub secs: i64,
    pub nanos: u32,
}

impl Timestamp {
    /// The nanosecond part stays below one second.
    pub open spec fn wf(&self) -> bool {
        self.nanos < NANOS_PER_SEC
    }

    /// Nanoseconds since the epoch, as a mathematical integer.
    pub open spec fn total_nanos(&self) -> int {
        self.secs * 1_000_000_000 + self.nanos
    }

    /// The instant `secs` seconds and `nanos` nanoseconds after the epoch, or `None`
    /// where `nanos` does not stay below one second.
    pub fn new(secs: i64, nanos: u32) -> (t: Option<Timestamp>)
        ensures
            t == (if nanos < NANOS_PER_SEC {
                Some(Timestamp { secs, nanos })
            } else {
                None
            }),
            t is Some ==> t->0.wf(),
    {
        if nanos < NANOS_PER_SEC {
            Some(Timestamp { secs, nanos })
        } else {
            None
        }
    }
}

/// Reads the system clock through `chrono::Utc::now`.
///
/// Trusted: the instant comes back split by `DateTime::timestamp` and
/// `DateTime::timestamp_subsec_nanos`. The only claim is that the nanosecond part
/// is below one second, which holds because `Utc::now` builds its value from the
/// sub-second part of a `std::time::Duration`. Nothing is said of which instant it is.
/// `Utc::now` panics where the system clock stands before the Unix epoch or beyond the
/// range of chrono; every function that reads the clock says so.
#[verifier::external_body]
pub(crate) fn utc_now() -> (now: Timestamp)
    ensures
        now.wf(),
{
    let now = chrono::Utc::now();
    Timestamp { secs: now.timestamp(), nanos: now.timestamp_subsec_nanos() }
}

/// `a` divided by a positive `b`, rounded toward zero.
pub open spec fn truncated_quotient(a: int, b: int) -> int
    recommends
        b > 0,
{
    if a >= 0 {
        a / b
    } else {
        -((-a) / b)
    }
}

/// What is left of `a` after [`truncated_quotient`]; it has the sign of `a`.
pub open spec fn truncated_remainder(a: int, b: int) -> int
    recommends
        b > 0,
{
    a - b * truncated_quotient(a, b)
}

/// Whole seconds from `earlier` to `later`, rounded toward zero.
pub open spec fn whole_seconds_between(earlier: Timestamp, later: Timestamp) -> int {
    truncated_quotient(later.total_nanos() - earlier.total_nanos(), 1_000_000_000)
}

/// Computes [`truncated_quotient`] and [`truncated_remainder`].
pub fn divide_truncating(a: i128, b: i128) -> (qr: (i128, i128))
    requires
        b > 0,
        a > i128::MIN,
    ensures
        qr.0 == truncated_quotient(a as int, b as int),
        qr.1 == truncated_remainder(a as int, b as int),
{
    if a >= 0 {
        let q: i128 = a / b;
        let r: i128 = a % b;
        proof {
            vstd::arithmetic::div_mod::lemma_fundamental_div_mod(a as int, b as int);
        }
        (q, r)
    } else {
        let m: i128 = -a;
        let q: i128 = m / b;
        let r: i128 = m % b;
        proof {
            vstd::arithmetic::div_mod::lemma_fundamental_div_mod(m as int, b as int);
            assert((b as int) * (-(q as int)) == -((b as int) * (q as int))) by (nonlinear_arith);
        }
        (-q, -r)
    }
}

/// Computes [`whole_seconds_between`].
pub fn seconds_between(earlier: Timestamp, later: Timestamp) -> (s: i128)
    ensures
        s == whole_seconds_between(earlier, later),
{
    let d_secs: i128 = later.secs as i128 - earlier.secs as i128;
    let d_nanos: i128 = later.nanos as i128 - earlier.nanos as i128;
    let diff: i128 = d_secs * 1_000_000_000 + d_nanos;
    divide_truncating(diff, 1_000_000_000).0
}

} // verus!
