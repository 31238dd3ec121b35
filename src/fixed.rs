//! Fixed displacements from UTC, bounded by one day in magnitude.

use vstd::prelude::*;

use crate::mapped::MappedLocalTime;
use crate::naive::NaiveDateTime;
use crate::zone::{Offset, TimeZone};

verus! {

/// Number of seconds in one civil day; a fixed offset stays strictly inside it.
pub const SECONDS_PER_DAY: i32 = 86_400;

/// Whether `secs` is a valid displacement from UTC in seconds.
pub open spec fn in_offset_range(secs: int) -> bool {
    -86_400 < secs < 86_400
}

/// The error returned when an offset would reach a full day in magnitude.
#[derive(Clone, Copy, Debug, PartialEq, Eq, Structural)]
pub struct RangeError;

/// A time zone with a constant displacement from UTC, in seconds.
#[derive(Clone, Copy, Debug, PartialEq, Eq, Hash, Structural)]
pub struct FixedOffset {
    local_minus_utc: i32,
}

impl FixedOffset {
    #[verifier::type_invariant]
    spec fn inv(self) -> bool {
        in_offset_range(self.local_minus_utc as int)
    }

    /// Seconds to add to a UTC time to obtain the local time.
    pub closed spec fn seconds(self) -> int {
        self.local_minus_utc as int
    }

    /// The offset `secs` east of UTC, when it lies in range.
    pub closed spec fn spec_east(secs: int) -> Result<FixedOffset, RangeError> {
        if in_offset_range(secs) {
            Ok(FixedOffset { local_minus_utc: secs as i32 })
        } else {
            Err(RangeError)
        }
    }

    /// The offset `secs` west of UTC, when it lies in range.
    pub open spec fn spec_west(secs: int) -> Result<FixedOffset, RangeError> {
        Self::spec_east(-secs)
    }

    /// A fixed offset built by `spec_east` keeps the seconds it was given.
    pub proof fn lemma_spec_east(secs: int)
        ensures
            Self::spec_east(secs) is Ok <==> in_offset_range(secs),
            Self::spec_east(secs) matches Ok(o) ==> o.seconds() == secs,
            !in_offset_range(secs) ==> Self::spec_east(secs) == Err::<FixedOffset, RangeError>(
                RangeError,
            ),
    {
    }

    /// Makes the offset `secs` seconds east of UTC (local time ahead of UTC).
    pub fn east(secs: i32) -> (r: Result<FixedOffset, RangeError>)
        ensures
            r == Self::spec_east(secs as int),
            r is Ok <==> in_offset_range(secs as int),
            r matches Ok(o) ==> o.seconds() == secs,
    {
        if -SECONDS_PER_DAY < secs && secs < SECONDS_PER_DAY {
            Ok(FixedOffset { local_minus_utc: secs })
        } else {
            Err(RangeError)
        }
    }

    /// Makes the offset `secs` seconds west of UTC (local time behind UTC).
    pub fn west(secs: i32) -> (r: Result<FixedOffset, RangeError>)
        ensures
            r == Self::spec_west(secs as int),
            r is Ok <==> in_offset_range(secs as int),
            r matches Ok(o) ==> o.seconds() == -secs,
    {
        if -SECONDS_PER_DAY < secs && secs < SECONDS_PER_DAY {
            Ok(FixedOffset { local_minus_utc: -secs })
        } else {
            Err(RangeError)
        }
    }

    /// Seconds to add to a UTC time to obtain the local time.
    pub fn local_minus_utc(&self) -> (r: i32)
        ensures
            r == self.seconds(),
            in_offset_range(r as int),
    {
        proof {
            use_type_invariant(self);
        }
        self.local_minus_utc
    }

    /// Seconds to add to a local time to obtain the UTC time.
    pub fn utc_minus_local(&self) -> (r: i32)
        ensures
            r == -self.seconds(),
            in_offset_range(r as int),
    {
        proof {
            use_type_invariant(self);
        }
        -self.local_minus_utc
    }
}

impl Offset for FixedOffset {
    open spec fn seconds(self) -> int {
        FixedOffset::seconds(self)
    }

    open spec fn spec_fix(self) -> FixedOffset {
        self
    }

    /// A fixed offset is its own fixed form.
    fn fix(&self) -> (r: FixedOffset) {
        *self
    }
}

impl TimeZone for FixedOffset {
    type Offset = FixedOffset;

    open spec fn spec_offset_from_local(&self, local: NaiveDateTime) -> MappedLocalTime<FixedOffset> {
        MappedLocalTime::Single(*self)
    }

    open spec fn spec_offset_from_utc(&self, utc: NaiveDateTime) -> FixedOffset {
        *self
    }

    open spec fn spec_from_offset(offset: FixedOffset) -> FixedOffset {
        offset
    }

    proof fn lemma_offset_from_local_wf(&self, local: NaiveDateTime) {
    }

    fn from_offset(offset: &FixedOffset) -> (r: FixedOffset) {
        *offset
    }

    /// A fixed offset has no transitions: every local time has exactly
    /// one offset, this one.
    fn offset_from_local_datetime(&self, local: &NaiveDateTime) -> (r: MappedLocalTime<FixedOffset>) {
        MappedLocalTime::Single(*self)
    }

    fn offset_from_utc_datetime(&self, utc: &NaiveDateTime) -> (r: FixedOffset) {
        *self
    }
}

} // verus!
