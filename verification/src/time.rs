//! Points in time as plain numbers.

use vstd::prelude::*;

verus! {

/// A date and time with the offset from UTC it was written with, held as the
/// instant it names: whole seconds since 1970-01-01T00:00:00Z, the
/// nanoseconds into that second, and the offset in seconds east of UTC.
///
/// `nanos` may reach past one second where the value stands for a leap
/// second; nothing here depends on it staying below.
#[derive(Clone, Copy, Debug, PartialEq, Eq, Structural, Hash)]
pub struct DateTime {
    pub seconds: i64,
    pub nanos: u32,
    pub offset_seconds: i32,
}

impl DateTime {
    /// The instant in whole milliseconds since the Unix epoch; what is below a
    /// millisecond is cut off.
    pub open spec fn unix_millis(self) -> int {
        self.seconds * 1000 + self.nanos / 1_000_000
    }

    /// The UTC date and time that is `millis` milliseconds after the Unix
    /// epoch (before it, where `millis` is negative).
    pub open spec fn spec_from_unix_millis(millis: int) -> DateTime {
        DateTime {
            seconds: (millis / 1000) as i64,
            nanos: ((millis % 1000) * 1_000_000) as u32,
            offset_seconds: 0,
        }
    }

    /// The instant in whole milliseconds since the Unix epoch.
    pub fn timestamp_millis(&self) -> (r: i128)
        ensures
            r == self.unix_millis(),
    {
        let whole: i128 = (self.seconds as i128) * 1000;
        let part: i128 = (self.nanos / 1_000_000) as i128;
        whole + part
    }

    /// The UTC date and time that is `millis` milliseconds after the Unix
    /// epoch.
    pub fn from_timestamp_millis(millis: u64) -> (r: DateTime)
        ensures
            r == Self::spec_from_unix_millis(millis as int),
    {
        let seconds: u64 = millis / 1000;
        let rest: u64 = millis % 1000;
        DateTime { seconds: seconds as i64, nanos: (rest * 1_000_000) as u32, offset_seconds: 0 }
    }
}

/// A UTC date and time made from a number of milliseconds names that very
/// millisecond.
pub proof fn lemma_from_unix_millis(millis: int)
    requires
        0 <= millis <= u64::MAX,
    ensures
        DateTime::spec_from_unix_millis(millis).unix_millis() == millis,
{
    let t = DateTime::spec_from_unix_millis(millis);
    assert(t.seconds == millis / 1000);
    assert(t.nanos == (millis % 1000) * 1_000_000);
    assert(t.nanos / 1_000_000 == millis % 1000) by {
        let r = millis % 1000;
        assert((r * 1_000_000) / 1_000_000 == r) by (nonlinear_arith)
            requires
                0 <= r < 1000,
        ;
    }
}

} // verus!
