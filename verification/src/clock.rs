//! Instants in time, as the `time` crate's `OffsetDateTime` gives them in UTC,
//! and the few operations on them that the application needs.

use vstd::prelude::*;

verus! {

/// Nanoseconds in one second.
pub const NANOS_PER_SECOND: i128 = 1_000_000_000;

/// The latest instant that `OffsetDateTime` can represent in UTC
/// (9999-12-31 23:59:59.999999999), in nanoseconds since the Unix epoch.
pub const MAX_INSTANT_NANOS: i128 = 253_402_300_799_999_999_999;

/// The Unix seconds of the earliest instant that `OffsetDateTime` can
/// represent in UTC (-9999-01-01 00:00:00).
pub const MIN_UNIX_SECONDS: i64 = -377_705_116_800;

/// The Unix seconds of the latest instant that `OffsetDateTime` can
/// represent in UTC (9999-12-31 23:59:59).
pub const MAX_UNIX_SECONDS: i64 = 253_402_300_799;

/// An instant: whole seconds since the Unix epoch and the nanoseconds
/// within that second.
#[derive(Clone, Copy, Debug, PartialEq, Eq)]
pub struct Timestamp {
    unix_seconds: i64,
    nanosecond: u32,
}

impl Timestamp {
    #[verifier::type_invariant]
    spec fn valid(self) -> bool {
        self.nanosecond < 1_000_000_000
    }

    /// Whole seconds since the Unix epoch (rounded towards negative infinity).
    pub closed spec fn spec_unix_seconds(self) -> int {
        self.unix_seconds as int
    }

    /// Nanoseconds within the second, in `0..1_000_000_000`.
    pub closed spec fn spec_nanosecond(self) -> int {
        self.nanosecond as int
    }

    /// The instant as nanoseconds since the Unix epoch.
    pub open spec fn total_nanos(self) -> int {
        self.spec_unix_seconds() * 1_000_000_000 + self.spec_nanosecond()
    }

    /// Builds an instant from its Unix seconds and the nanoseconds within the
    /// second; `None` when `nanosecond` is not below one second.
    pub fn from_unix(unix_seconds: i64, nanosecond: u32) -> (r: Option<Timestamp>)
        ensures
            r is Some <==> nanosecond < 1_000_000_000,
            r matches Some(t) ==> t.spec_unix_seconds() == unix_seconds as int
                && t.spec_nanosecond() == nanosecond as int,
    {
        if nanosecond < 1_000_000_000 {
            Some(Timestamp { unix_seconds, nanosecond })
        } else {
            None
        }
    }

    /// Whole seconds since the Unix epoch.
    pub fn unix_seconds(&self) -> (r: i64)
        ensures
            r as int == self.spec_unix_seconds(),
    {
        self.unix_seconds
    }

    /// Nanoseconds within the second.
    pub fn nanosecond(&self) -> (r: u32)
        ensures
            r as int == self.spec_nanosecond(),
            r < 1_000_000_000,
    {
        proof {
            use_type_invariant(self);
        }
        self.nanosecond
    }

    /// The instant as nanoseconds since the Unix epoch.
    pub fn as_nanos(&self) -> (r: i128)
        ensures
            r as int == self.total_nanos(),
    {
        (self.unix_seconds as i128) * NANOS_PER_SECOND + (self.nanosecond as i128)
    }

    /// The instant `seconds` later, saturating at the latest instant that
    /// `OffsetDateTime` can represent.
    pub fn saturating_add_seconds(&self, seconds: u32) -> (r: Timestamp)
        ensures
            r.total_nanos() == if self.total_nanos() + seconds * 1_000_000_000 > MAX_INSTANT_NANOS {
                MAX_INSTANT_NANOS as int
            } else {
                self.total_nanos() + seconds * 1_000_000_000
            },
    {
        proof {
            use_type_invariant(self);
        }
        let sum: i128 = self.as_nanos() + (seconds as i128) * NANOS_PER_SECOND;
        let target: i128 = if sum > MAX_INSTANT_NANOS { MAX_INSTANT_NANOS } else { sum };
        Timestamp::from_total_nanos(target)
    }

    fn from_total_nanos(n: i128) -> (r: Timestamp)
        requires
            -9_223_372_036_854_775_808 * 1_000_000_000 <= n <= MAX_INSTANT_NANOS,
        ensures
            r.total_nanos() == n,
    {
        if n >= 0 {
            let s: i128 = n / NANOS_PER_SECOND;
            let ns: i128 = n % NANOS_PER_SECOND;
            Timestamp { unix_seconds: s as i64, nanosecond: ns as u32 }
        } else {
            let m: i128 = -n;
            let q: i128 = m / NANOS_PER_SECOND;
            let rem: i128 = m % NANOS_PER_SECOND;
            if rem == 0 {
                Timestamp { unix_seconds: (-q) as i64, nanosecond: 0 }
            } else {
                Timestamp { unix_seconds: (-q - 1) as i64, nanosecond: (NANOS_PER_SECOND - rem) as u32 }
            }
        }
    }

    /// The signed length of time from `earlier` to `self`, in nanoseconds.
    pub fn nanos_since(&self, earlier: &Timestamp) -> (r: i128)
        ensures
            r as int == self.total_nanos() - earlier.total_nanos(),
            i128::MIN < r,
    {
        proof {
            use_type_invariant(self);
            use_type_invariant(earlier);
        }
        self.as_nanos() - earlier.as_nanos()
    }
}

/// Division rounding towards zero, as `Duration::whole_*` rounds.
pub open spec fn trunc_div(n: int, d: int) -> int {
    if n >= 0 {
        n / d
    } else {
        -((-n) / d)
    }
}

/// The whole seconds in a span of `nanos` nanoseconds, rounded towards zero
/// (`Duration::whole_seconds`).
pub fn whole_seconds(nanos: i128) -> (r: i128)
    requires
        nanos > i128::MIN,
    ensures
        r as int == trunc_div(nanos as int, 1_000_000_000),
{
    if nanos >= 0 {
        nanos / NANOS_PER_SECOND
    } else {
        -((-nanos) / NANOS_PER_SECOND)
    }
}

/// Reads the system clock: the Unix seconds and the nanosecond within the
/// second of `OffsetDateTime::now_utc()`, taken with
/// `OffsetDateTime::unix_timestamp` and `OffsetDateTime::nanosecond`.
/// The contract claims what the `time` crate's source shows of every
/// `OffsetDateTime`: its date lies between the years -9999 and 9999 (the
/// crate is built without its `large-dates` feature), so its Unix seconds
/// lie between those of the first and the last instant of that range, and
/// its nanosecond is below one second. Which instant is read is not stated.
#[verifier::external_body]
fn read_system_clock() -> (r: (i64, u32))
    ensures
        MIN_UNIX_SECONDS <= r.0 <= MAX_UNIX_SECONDS,
        r.1 < 1_000_000_000,
{
    let now = time::OffsetDateTime::now_utc();
    (now.unix_timestamp(), now.nanosecond())
}

/// Whether `t` is an instant that `OffsetDateTime` can represent in UTC.
pub open spec fn representable(t: Timestamp) -> bool {
    MIN_UNIX_SECONDS * 1_000_000_000 <= t.total_nanos() <= MAX_INSTANT_NANOS
}

/// The Unix epoch, 1970-01-01 00:00:00 UTC.
pub closed spec fn unix_epoch() -> Timestamp {
    Timestamp { unix_seconds: 0, nanosecond: 0 }
}

/// The Unix epoch is an instant that `OffsetDateTime` can represent.
pub proof fn lemma_unix_epoch_representable()
    ensures
        representable(unix_epoch()),
        unix_epoch().total_nanos() == 0,
{
}

/// The current instant, as the system clock gives it: an instant that
/// `OffsetDateTime` can represent.
pub fn now_utc() -> (r: Timestamp)
    ensures
        representable(r),
{
    let (unix_seconds, nanosecond) = read_system_clock();
    Timestamp { unix_seconds, nanosecond }
}

} // verus!
