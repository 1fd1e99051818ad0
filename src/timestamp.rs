//! Event timestamps: microseconds since the Unix epoch, held as whole seconds
//! and the nanoseconds past them.
use chrono::{TimeZone, Utc};
use vstd::prelude::*;

verus! {

/// The last second after the Unix epoch that chrono can represent: the end of
/// year 262142, its latest year.
pub const MAX_UTC_SECS: i64 = 8_210_266_876_799;

/// Relies on chrono's `Utc.timestamp_opt(secs, nanos).earliest()`, which for
/// seconds after the epoch and nanoseconds below one second yields an instant
/// exactly up to the end of chrono's latest year.
#[verifier::external_body]
fn utc_accepts(secs: i64, nanos: u32) -> (r: bool)
    requires
        0 <= secs,
        nanos < 1_000_000_000,
    ensures
        r == (secs <= MAX_UTC_SECS),
{
    Utc.timestamp_opt(secs, nanos).earliest().is_some()
}

/// A calendar instant with microsecond resolution, after the Unix epoch.
#[derive(Debug, Clone, Copy, PartialEq, Eq, Structural)]
pub struct Timestamp {
    pub secs: i64,
    pub nanos: u32,
}

/// The instant that a count of microseconds since the epoch denotes: the whole
/// seconds, and the remaining microseconds as nanoseconds.
pub open spec fn parts_of(micros: u64) -> Timestamp {
    Timestamp {
        secs: (micros / 1_000_000) as i64,
        nanos: ((micros % 1_000_000) * 1000) as u32,
    }
}

/// Whether a count of microseconds since the epoch falls on an instant that
/// chrono can represent.
pub open spec fn in_range(micros: u64) -> bool {
    micros / 1_000_000 <= MAX_UTC_SECS
}

impl Timestamp {
    /// The count of microseconds since the epoch.
    pub open spec fn micros_spec(self) -> int {
        self.secs * 1_000_000 + self.nanos / 1000
    }

    /// Holds of every timestamp made from a microsecond count.
    pub open spec fn wf(self) -> bool {
        &&& 0 <= self.secs
        &&& self.nanos < 1_000_000_000
        &&& self.micros_spec() <= u64::MAX
    }

    /// Converts a count of microseconds since the epoch into a timestamp, or
    /// hands the count back where chrono cannot represent that instant.
    pub fn from_micros(micros: u64) -> (r: Result<Timestamp, u64>)
        ensures
            in_range(micros) ==> r == Ok::<Timestamp, u64>(parts_of(micros)),
            !in_range(micros) ==> r == Err::<Timestamp, u64>(micros),
    {
        let secs: u64 = micros / 1_000_000;
        let rest: u64 = micros % 1_000_000;
        if utc_accepts(secs as i64, (rest * 1000) as u32) {
            Ok(Timestamp { secs: secs as i64, nanos: (rest * 1000) as u32 })
        } else {
            Err(micros)
        }
    }

    /// The count of microseconds since the epoch.
    pub fn micros(&self) -> (r: u64)
        requires
            self.wf(),
        ensures
            r == self.micros_spec(),
    {
        proof {
            assert(self.secs * 1_000_000 <= u64::MAX);
        }
        (self.secs as u64) * 1_000_000 + (self.nanos / 1000) as u64
    }
}

/// Splitting a microsecond count into seconds and nanoseconds loses nothing:
/// the parts are a well-formed timestamp that counts the same microseconds,
/// and every count up to the end of chrono's latest year is in range.
pub proof fn lemma_micros_round_trip(micros: u64)
    ensures
        micros < (MAX_UTC_SECS + 1) * 1_000_000 <==> in_range(micros),
        parts_of(micros).wf(),
        parts_of(micros).micros_spec() == micros,
{
    let m = micros as int;
    assert(m == (m / 1_000_000) * 1_000_000 + m % 1_000_000) by (nonlinear_arith);
    assert(0 <= m % 1_000_000 < 1_000_000);
    assert(((m % 1_000_000) * 1000) / 1000 == m % 1_000_000) by (nonlinear_arith)
        requires 0 <= m % 1_000_000 < 1_000_000;
    assert(0 <= m / 1_000_000 <= m) by (nonlinear_arith) requires 0 <= m;
}

} // verus!
