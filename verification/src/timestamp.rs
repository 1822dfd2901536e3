//! A UTC instant: whole seconds since the Unix epoch plus a nanosecond part.
//! The range covers exactly the instants that a four-digit-year RFC 3339
//! string can denote, 0000-01-01T00:00:00Z through 9999-12-31T23:59:59.999999999Z.

use vstd::prelude::*;

use crate::calendar::{days_before_year, days_before_year_exec, lemma_days_before_year_bounds};

verus! {

pub const NANOS_PER_SECOND: u32 = 1000000000;

pub const SECONDS_PER_DAY: u32 = 86400;

/// Day number of 1970-01-01, the Unix epoch, counted from 0000-01-01.
pub open spec fn epoch_day_number() -> int {
    days_before_year(1970)
}

/// Seconds-since-epoch of 0000-01-01T00:00:00Z, the least representable instant.
pub open spec fn min_seconds() -> int {
    -epoch_day_number() * 86400
}

/// Seconds-since-epoch of 9999-12-31T23:59:59Z, the greatest representable instant.
pub open spec fn max_seconds() -> int {
    (days_before_year(10000) - epoch_day_number()) * 86400 - 1
}

#[derive(Debug, Clone, Copy, PartialEq, Eq, Structural)]
pub struct Timestamp {
    seconds: i64,
    nanos: u32,
}

impl Timestamp {
    /// Whole seconds since 1970-01-01T00:00:00Z; negative before the epoch.
    pub closed spec fn sec(self) -> int {
        self.seconds as int
    }

    /// Nanoseconds within the second, always below one billion.
    pub closed spec fn ns(self) -> int {
        self.nanos as int
    }

    /// The representable range; every constructed timestamp satisfies it.
    pub open spec fn wf(self) -> bool {
        &&& min_seconds() <= self.sec() <= max_seconds()
        &&& 0 <= self.ns() < NANOS_PER_SECOND
    }

    #[verifier::type_invariant]
    pub(crate) open spec fn type_wf(self) -> bool {
        self.wf()
    }

    /// Builds a timestamp, or nothing when the parts lie outside the
    /// representable range.
    pub fn new(seconds: i64, nanos: u32) -> (r: Option<Timestamp>)
        ensures
            match r {
                Some(ts) => ts.sec() == seconds && ts.ns() == nanos,
                None => !(min_seconds() <= seconds <= max_seconds() && nanos < NANOS_PER_SECOND),
            },
    {
        let (lo, hi) = seconds_range();
        if lo <= seconds && seconds <= hi && nanos < NANOS_PER_SECOND {
            Some(Timestamp { seconds, nanos })
        } else {
            None
        }
    }

    /// The timestamp with the given parts; meaningful for parts that lie
    /// in the representable range.
    pub closed spec fn from_parts_spec(seconds: int, nanos: int) -> Timestamp {
        Timestamp { seconds: seconds as i64, nanos: nanos as u32 }
    }

    /// For parts in range, the spec-level constructor is exact and yields
    /// a well-formed timestamp.
    pub proof fn lemma_from_parts_spec(seconds: int, nanos: int)
        requires
            min_seconds() <= seconds <= max_seconds(),
            0 <= nanos < NANOS_PER_SECOND,
        ensures
            Timestamp::from_parts_spec(seconds, nanos).sec() == seconds,
            Timestamp::from_parts_spec(seconds, nanos).ns() == nanos,
            Timestamp::from_parts_spec(seconds, nanos).wf(),
    {
        lemma_days_before_year_bounds(1970);
        lemma_days_before_year_bounds(10000);
    }

    /// Builds a timestamp from parts already known to be in range.
    pub(crate) fn from_parts(seconds: i64, nanos: u32) -> (r: Timestamp)
        requires
            min_seconds() <= seconds <= max_seconds(),
            nanos < NANOS_PER_SECOND,
        ensures
            r.sec() == seconds,
            r.ns() == nanos,
    {
        Timestamp { seconds, nanos }
    }

    pub fn seconds(&self) -> (r: i64)
        ensures
            r == self.sec(),
            self.wf(),
    {
        proof {
            use_type_invariant(self);
        }
        self.seconds
    }

    pub fn nanos(&self) -> (r: u32)
        ensures
            r == self.ns(),
            self.wf(),
    {
        proof {
            use_type_invariant(self);
        }
        self.nanos
    }
}

/// The least and greatest representable seconds-since-epoch values.
pub fn seconds_range() -> (r: (i64, i64))
    ensures
        r.0 == min_seconds(),
        r.1 == max_seconds(),
{
    proof {
        lemma_days_before_year_bounds(1970);
        lemma_days_before_year_bounds(10000);
    }
    let epoch_days = days_before_year_exec(1970);
    let all_days = days_before_year_exec(10000);
    let lo: i64 = -(epoch_days as i64) * (SECONDS_PER_DAY as i64);
    let hi: i64 = (all_days as i64 - epoch_days as i64) * (SECONDS_PER_DAY as i64) - 1;
    (lo, hi)
}

} // verus!
