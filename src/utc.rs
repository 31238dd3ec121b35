//! The UTC zone: the zone whose offset is always zero.

use vstd::prelude::*;

use crate::datetime::DateTime;
use crate::fixed::FixedOffset;
use crate::mapped::MappedLocalTime;
use crate::naive::{NaiveDateTime, MAX_TIMESTAMP, MIN_TIMESTAMP, NANOS_PER_SEC};
use crate::zone::{Offset, TimeZone};

use std::time::{Duration, SystemTime, SystemTimeError};

verus! {

/// The host's wall-clock reading, carried through opaquely.
#[verifier::external_type_specification]
#[verifier::external_body]
pub struct ExSystemTime(SystemTime);

/// A clock reading that lies before the Unix epoch, carried through opaquely.
#[verifier::external_type_specification]
#[verifier::external_body]
pub struct ExSystemTimeError(SystemTimeError);

/// Relies on `SystemTime::now`: reads the host's wall clock. Nothing is
/// promised of the reading.
pub assume_specification[ SystemTime::now ]() -> SystemTime;

/// Relies on `SystemTime::duration_since` with `UNIX_EPOCH`: the time
/// elapsed since 1970-01-01T00:00:00, or an error carrying how far `t`
/// lies before it.
#[verifier::external_body]
fn since_unix_epoch(t: &SystemTime) -> Result<Duration, SystemTimeError> {
    t.duration_since(SystemTime::UNIX_EPOCH)
}

/// Relies on `SystemTimeError::duration`: how far the clock reading lies
/// before the reference point.
pub assume_specification[ SystemTimeError::duration ](this: &SystemTimeError) -> Duration;

/// Relies on `Duration::as_secs`: the whole seconds of a duration.
pub assume_specification[ Duration::as_secs ](this: &Duration) -> u64;

/// Relies on `Duration::subsec_nanos`: the fractional part of a duration,
/// documented to be less than one second.
pub assume_specification[ Duration::subsec_nanos ](this: &Duration) -> (r: u32)
    ensures
        r < 1_000_000_000,
;

/// The UTC time zone, also used as its own (always zero) offset.
///
/// Its renderings are `debug_string` ("Z") and `to_string` ("UTC").
#[derive(Clone, Copy, PartialEq, Eq, Hash, Structural)]
pub struct Utc;

/// The whole seconds and nanoseconds since 1970-01-01T00:00:00 of a clock
/// reading `secs` seconds and `nanos` nanoseconds after that point, or
/// before it when `before_epoch` holds.
pub open spec fn unix_parts(before_epoch: bool, secs: int, nanos: int) -> (int, int) {
    if !before_epoch {
        (secs, nanos)
    } else if nanos == 0 {
        (-secs, 0)
    } else {
        (-secs - 1, NANOS_PER_SEC - nanos)
    }
}

impl Utc {
    /// The UTC instant of a clock reading, when it is representable.
    pub open spec fn spec_from_unix(before_epoch: bool, secs: int, nanos: int) -> Option<
        DateTime<Utc>,
    > {
        if nanos >= NANOS_PER_SEC {
            None
        } else {
            let (s, n) = unix_parts(before_epoch, secs, nanos);
            match NaiveDateTime::spec_from_parts(s, n) {
                Some(t) => Some(DateTime::spec_new(t, Utc)),
                None => None,
            }
        }
    }

    /// Turns a clock reading, `secs` seconds and `nanos` nanoseconds after
    /// 1970-01-01T00:00:00 (or before it when `before_epoch` holds), into a
    /// UTC instant. `None` when `nanos` is not below one second or the
    /// instant lies outside the representable range.
    pub fn from_unix_reading(before_epoch: bool, secs: u64, nanos: u32) -> (r: Option<
        DateTime<Utc>,
    >)
        ensures
            r == Self::spec_from_unix(before_epoch, secs as int, nanos as int),
            r is Some <==> (nanos < NANOS_PER_SEC && crate::naive::in_timestamp_range(
                unix_parts(before_epoch, secs as int, nanos as int).0,
            )),
            r matches Some(d) ==> {
                &&& d.utc().seconds() == unix_parts(before_epoch, secs as int, nanos as int).0
                &&& d.utc().nanos() == unix_parts(before_epoch, secs as int, nanos as int).1
                &&& d.spec_offset() == Utc
            },
    {
        proof {
            let (s, n) = unix_parts(before_epoch, secs as int, nanos as int);
            NaiveDateTime::lemma_from_parts(s, n);
        }
        if nanos >= NANOS_PER_SEC {
            return None;
        }
        let parts = if !before_epoch {
            if secs > MAX_TIMESTAMP as u64 {
                return None;
            }
            (secs as i64, nanos)
        } else if nanos == 0 {
            if secs > (-MIN_TIMESTAMP) as u64 {
                return None;
            }
            (-(secs as i64), 0)
        } else {
            if secs >= (-MIN_TIMESTAMP) as u64 {
                return None;
            }
            (-(secs as i64) - 1, NANOS_PER_SEC - nanos)
        };
        match NaiveDateTime::from_timestamp(parts.0, parts.1) {
            Some(t) => Some(DateTime::from_naive_utc_and_offset(t, Utc)),
            None => None,
        }
    }

    /// The current instant, read from the host's wall clock and tagged with
    /// the UTC zone; `None` when the clock reads outside the representable
    /// range.
    pub fn now() -> (r: Option<DateTime<Utc>>)
        ensures
            r matches Some(d) ==> d.spec_offset() == Utc && d.utc().valid(),
            r matches Some(d) ==> exists|before: bool, s: int, n: int|
                #![trigger Self::spec_from_unix(before, s, n)]
                Self::spec_from_unix(before, s, n) == Some(d),
    {
        let reading = SystemTime::now();
        match since_unix_epoch(&reading) {
            Ok(d) => Self::from_unix_reading(false, d.as_secs(), d.subsec_nanos()),
            Err(e) => {
                let d = e.duration();
                Self::from_unix_reading(true, d.as_secs(), d.subsec_nanos())
            },
        }
    }

    /// The machine-oriented rendering of the zone: `Z`.
    pub fn debug_string(&self) -> (r: String)
        ensures
            r@ == "Z"@,
    {
        "Z".to_owned()
    }

    /// The human-oriented rendering of the zone: `UTC`.
    pub fn to_string(&self) -> (r: String)
        ensures
            r@ == "UTC"@,
    {
        "UTC".to_owned()
    }
}

impl Offset for Utc {
    open spec fn seconds(self) -> int {
        0
    }

    open spec fn spec_fix(self) -> FixedOffset {
        FixedOffset::spec_east(0)->Ok_0
    }

    /// The zero offset.
    fn fix(&self) -> (r: FixedOffset) {
        proof {
            FixedOffset::lemma_spec_east(0);
        }
        FixedOffset::east(0).unwrap()
    }
}

impl TimeZone for Utc {
    type Offset = Utc;

    open spec fn spec_offset_from_local(&self, local: NaiveDateTime) -> MappedLocalTime<Utc> {
        MappedLocalTime::Single(Utc)
    }

    open spec fn spec_offset_from_utc(&self, utc: NaiveDateTime) -> Utc {
        Utc
    }

    open spec fn spec_from_offset(offset: Utc) -> Utc {
        Utc
    }

    proof fn lemma_offset_from_local_wf(&self, local: NaiveDateTime) {
    }

    /// Ignores its argument: there is only one UTC zone.
    fn from_offset(offset: &Utc) -> (r: Utc) {
        Utc
    }

    /// Every local time is also exactly one UTC time.
    fn offset_from_local_datetime(&self, local: &NaiveDateTime) -> (r: MappedLocalTime<Utc>) {
        MappedLocalTime::Single(Utc)
    }

    fn offset_from_utc_datetime(&self, utc: &NaiveDateTime) -> (r: Utc) {
        Utc
    }
}

} // verus!
