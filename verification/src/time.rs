//! Durations and clocks for token-expiry bookkeeping.
//!
//! Wall-clock timestamps (Unix seconds) are used for anything persisted or
//! compared across process restarts; a monotonic-clock anchor is used only
//! for same-process elapsed-time arithmetic, so that remaining token
//! lifetimes are not affected by wall-clock skew.

use vstd::prelude::*;

verus! {

pub const NANOS_PER_SEC: u32 = 1_000_000_000;

/// A span of time: whole seconds plus a sub-second nanosecond part.
#[derive(Clone, Copy, Debug, PartialEq, Eq, Structural)]
pub struct Dur {
    pub secs: u64,
    pub nanos: u32,
}

impl Dur {
    /// The nanosecond part never reaches a full second.
    pub open spec fn wf(self) -> bool {
        self.nanos < 1_000_000_000
    }

    /// Total length in nanoseconds.
    pub open spec fn total_nanos(self) -> int {
        self.secs * 1_000_000_000 + self.nanos
    }

    pub fn zero() -> (r: Dur)
        ensures
            r.wf(),
            r.total_nanos() == 0,
    {
        Dur { secs: 0, nanos: 0 }
    }

    pub fn from_secs(secs: u64) -> (r: Dur)
        ensures
            r.wf(),
            r.total_nanos() == secs * 1_000_000_000,
            r.secs == secs,
    {
        Dur { secs, nanos: 0 }
    }

    pub fn as_secs(&self) -> (r: u64)
        ensures
            r == self.secs,
    {
        self.secs
    }

    pub fn is_zero(&self) -> (r: bool)
        ensures
            r == (self.total_nanos() == 0),
    {
        self.secs == 0 && self.nanos == 0
    }

    /// The difference `self - other`, or `None` when `other` is longer.
    pub fn checked_sub(&self, other: &Dur) -> (r: Option<Dur>)
        requires
            self.wf(),
            other.wf(),
        ensures
            r is Some <==> self.total_nanos() >= other.total_nanos(),
            r matches Some(d) ==> d.wf() && d.total_nanos() == self.total_nanos()
                - other.total_nanos(),
    {
        if self.secs < other.secs {
            None
        } else if self.nanos >= other.nanos {
            Some(Dur { secs: self.secs - other.secs, nanos: self.nanos - other.nanos })
        } else if self.secs > other.secs {
            Some(
                Dur {
                    secs: self.secs - other.secs - 1,
                    nanos: (self.nanos + NANOS_PER_SEC) - other.nanos,
                },
            )
        } else {
            None
        }
    }

    /// The difference `self - other`, clamped at zero.
    pub fn saturating_sub(&self, other: &Dur) -> (r: Dur)
        requires
            self.wf(),
            other.wf(),
        ensures
            r.wf(),
            r.total_nanos() == if self.total_nanos() >= other.total_nanos() {
                self.total_nanos() - other.total_nanos()
            } else {
                0
            },
    {
        match self.checked_sub(other) {
            Some(d) => d,
            None => Dur { secs: 0, nanos: 0 },
        }
    }
}

#[verifier::external_type_specification]
#[verifier::external_body]
pub struct ExInstant(std::time::Instant);

/// Relies on `std::time::Instant` being `Copy`: cloning yields the same
/// instant.
pub assume_specification[ <std::time::Instant as Clone>::clone ](
    i: &std::time::Instant,
) -> (r: std::time::Instant)
    ensures
        r == *i,
;

/// Relies on `std::time::Instant::now`: a fresh monotonic-clock anchor.
/// Nothing can be promised about the instant itself.
#[verifier::external_body]
pub(crate) fn instant_now() -> std::time::Instant {
    std::time::Instant::now()
}

/// Relies on `std::time::Instant::elapsed` and the `Duration` accessors
/// `as_secs` and `subsec_nanos`: how much time has passed since the anchor,
/// with the sub-second part below one full second.  How much time that is
/// cannot be pinned down, so only well-formedness is stated.
#[verifier::external_body]
pub(crate) fn elapsed_since(earlier: &std::time::Instant) -> (r: Dur)
    ensures
        r.wf(),
{
    let d = earlier.elapsed();
    Dur { secs: d.as_secs(), nanos: d.subsec_nanos() }
}

/// The Unix timestamp (in seconds) denoted by an RFC 3339 date-and-time
/// string, or `None` when the string is not valid RFC 3339.  Names the
/// result of chrono's `DateTime::parse_from_rfc3339`, which depends on the
/// input string alone.
pub uninterp spec fn rfc3339_ts(s: Seq<char>) -> Option<int>;

/// Relies on chrono's `DateTime::parse_from_rfc3339` (and `timestamp`):
/// parses all valid RFC 3339 date-and-time strings and rejects the rest.
#[verifier::external_body]
pub(crate) fn parse_rfc3339_secs(s: &str) -> (r: Option<i64>)
    ensures
        r matches Some(ts) ==> rfc3339_ts(s@) == Some(ts as int),
        r is None ==> rfc3339_ts(s@) is None,
{
    chrono::DateTime::parse_from_rfc3339(s).ok().map(|d| d.timestamp())
}

/// Relies on chrono's `DateTime::from_timestamp` and `to_rfc3339`: a
/// timestamp in this range renders as a valid RFC 3339 string that denotes
/// the same whole second, so parsing it back yields the timestamp again.
#[verifier::external_body]
pub(crate) fn format_rfc3339_secs(ts: i64) -> (r: String)
    requires
        0 <= ts < 100_000_000_000,
    ensures
        rfc3339_ts(r@) == Some(ts as int),
{
    match chrono::DateTime::<chrono::Utc>::from_timestamp(ts, 0) {
        Some(d) => d.to_rfc3339(),
        None => String::new(),
    }
}

/// Relies on chrono's `Utc::now` and `timestamp`: the current wall-clock
/// time as a Unix timestamp in seconds.  What time it is cannot be pinned
/// down, so nothing more is stated.
#[verifier::external_body]
pub fn now_unix_secs() -> i64 {
    chrono::Utc::now().timestamp()
}

} // verus!
