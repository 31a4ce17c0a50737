//! Spans of time, as the TIMEOUT clause takes them.

use crate::text::decimal;
use vstd::prelude::*;

verus! {

/// One unit of a duration literal: the count and the unit's letters, or
/// nothing where the count is zero.
pub open spec fn unit_text(count: nat, unit: Seq<char>) -> Seq<char> {
    if count > 0 {
        decimal(count) + unit
    } else {
        Seq::empty()
    }
}

/// The literal of a duration of `secs` seconds and `nanos` nanoseconds: years
/// of 365 days first, then weeks, days, hours, minutes, seconds, milliseconds,
/// microseconds and nanoseconds, each left out where it is zero. The empty
/// duration is `0ns`.
pub open spec fn duration_text(secs: nat, nanos: nat) -> Seq<char> {
    if secs == 0 && nanos == 0 {
        "0ns"@
    } else {
        let year = secs / 31_536_000;
        let secs = secs % 31_536_000;
        let week = secs / 604_800;
        let secs = secs % 604_800;
        let days = secs / 86_400;
        let secs = secs % 86_400;
        let hour = secs / 3_600;
        let secs = secs % 3_600;
        let mins = secs / 60;
        let secs = secs % 60;
        let msec = nanos / 1_000_000;
        let nano = nanos % 1_000_000;
        let usec = nano / 1_000;
        let nano = nano % 1_000;
        unit_text(year, "y"@) + unit_text(week, "w"@) + unit_text(days, "d"@) + unit_text(
            hour,
            "h"@,
        ) + unit_text(mins, "m"@) + unit_text(secs, "s"@) + unit_text(msec, "ms"@) + unit_text(
            usec,
            "µs"@,
        ) + unit_text(nano, "ns"@)
    }
}

/// A span of time: whole seconds and the nanoseconds of the second begun.
#[derive(Clone, Copy, Debug, PartialEq, Eq)]
pub struct Duration {
    secs: u64,
    nanos: u32,
}

impl Duration {
    #[verifier::type_invariant]
    spec fn inv(self) -> bool {
        self.nanos < 1_000_000_000
    }

    /// The whole seconds of the span.
    pub closed spec fn secs(self) -> nat {
        self.secs as nat
    }

    /// The nanoseconds of the second begun.
    pub closed spec fn subsec_nanos(self) -> nat {
        self.nanos as nat
    }

    /// The span as a duration literal.
    pub open spec fn text(self) -> Seq<char> {
        duration_text(self.secs(), self.subsec_nanos())
    }

    /// `secs` seconds and `nanos` nanoseconds; a billion nanoseconds or more
    /// carry into the seconds.
    pub fn new(secs: u64, nanos: u32) -> (d: Duration)
        requires
            secs + nanos / 1_000_000_000 <= u64::MAX,
        ensures
            d.secs() == secs + nanos / 1_000_000_000,
            d.subsec_nanos() == nanos % 1_000_000_000,
    {
        Duration { secs: secs + (nanos / 1_000_000_000) as u64, nanos: nanos % 1_000_000_000 }
    }

    pub fn from_secs(secs: u64) -> (d: Duration)
        ensures
            d.secs() == secs,
            d.subsec_nanos() == 0,
    {
        Duration { secs, nanos: 0 }
    }

    pub fn from_millis(millis: u64) -> (d: Duration)
        ensures
            d.secs() == millis / 1_000,
            d.subsec_nanos() == (millis % 1_000) * 1_000_000,
    {
        Duration { secs: millis / 1_000, nanos: ((millis % 1_000) as u32) * 1_000_000 }
    }

    pub fn from_micros(micros: u64) -> (d: Duration)
        ensures
            d.secs() == micros / 1_000_000,
            d.subsec_nanos() == (micros % 1_000_000) * 1_000,
    {
        Duration { secs: micros / 1_000_000, nanos: ((micros % 1_000_000) as u32) * 1_000 }
    }

    pub fn from_nanos(nanos: u64) -> (d: Duration)
        ensures
            d.secs() == nanos / 1_000_000_000,
            d.subsec_nanos() == nanos % 1_000_000_000,
    {
        Duration { secs: nanos / 1_000_000_000, nanos: (nanos % 1_000_000_000) as u32 }
    }

    pub fn as_secs(&self) -> (secs: u64)
        ensures
            secs == self.secs(),
    {
        self.secs
    }

    pub fn subsec(&self) -> (nanos: u32)
        ensures
            nanos == self.subsec_nanos(),
            nanos < 1_000_000_000,
    {
        proof {
            use_type_invariant(self);
        }
        self.nanos
    }

    pub fn to_string(&self) -> (out: String)
        ensures
            out@ == self.text(),
    {
        proof {
            use_type_invariant(self);
        }
        duration_literal(self.secs, self.nanos)
    }
}

/// What `surrealdb::sql::Duration` prints for a `std::time::Duration` of
/// `secs` seconds and `nanos` nanoseconds: the units from years down to
/// nanoseconds, each as a decimal count and its letters, zero counts left
/// out, and `0ns` for the empty duration.
#[verifier::external_body]
fn duration_literal(secs: u64, nanos: u32) -> (out: String)
    requires
        nanos < 1_000_000_000,
    ensures
        out@ == duration_text(secs as nat, nanos as nat),
{
    surrealdb::sql::Duration(std::time::Duration::new(secs, nanos)).to_string()
}

} // verus!
