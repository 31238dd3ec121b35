//! The contracts shared by every zone: the offset capability and the
//! two directions of resolution between local and UTC timestamps.

use vstd::prelude::*;

use crate::datetime::DateTime;
use crate::fixed::FixedOffset;
use crate::mapped::MappedLocalTime;
use crate::naive::NaiveDateTime;

verus! {

/// A value that knows its displacement from UTC.
pub trait Offset: Sized + Copy {
    /// Seconds to add to a UTC time to obtain the local time.
    spec fn seconds(self) -> int;

    /// The fixed offset with the same displacement.
    spec fn spec_fix(self) -> FixedOffset;

    /// Returns the fixed offset with the same displacement.
    fn fix(&self) -> (r: FixedOffset)
        ensures
            r == self.spec_fix(),
            r.seconds() == self.seconds(),
    ;
}

/// Attaches each offset of a resolution to the local timestamp it was
/// resolved from, giving instants; an offset under which the local time
/// has no representable UTC time makes the whole result `Skipped`.
pub open spec fn attach<O: Offset>(
    local: NaiveDateTime,
    m: MappedLocalTime<O>,
) -> MappedLocalTime<DateTime<O>> {
    let at = |o: O| local.spec_shift(-o.seconds());
    match m {
        MappedLocalTime::Single(o) => match at(o) {
            Some(u) => MappedLocalTime::Single(DateTime::spec_new(u, o)),
            None => MappedLocalTime::Skipped,
        },
        MappedLocalTime::Ambiguous(a, b) => match (at(a), at(b)) {
            (Some(ua), Some(ub)) => MappedLocalTime::Ambiguous(
                DateTime::spec_new(ua, a),
                DateTime::spec_new(ub, b),
            ),
            _ => MappedLocalTime::Skipped,
        },
        MappedLocalTime::Skipped => MappedLocalTime::Skipped,
    }
}

/// A time zone: rules that give the offset in force at any UTC instant
/// and resolve any local timestamp to zero, one or two offsets.
pub trait TimeZone: Sized {
    /// The offset values this zone hands out.
    type Offset: Offset;

    /// The offsets under which the local timestamp `local` occurs.
    spec fn spec_offset_from_local(&self, local: NaiveDateTime) -> MappedLocalTime<Self::Offset>;

    /// The offset in force at the UTC timestamp `utc`.
    spec fn spec_offset_from_utc(&self, utc: NaiveDateTime) -> Self::Offset;

    /// A resolution never gives the same offset twice.
    proof fn lemma_offset_from_local_wf(&self, local: NaiveDateTime)
        ensures
            self.spec_offset_from_local(local).wf(),
    ;

    /// The zone that hands out `offset`.
    spec fn spec_from_offset(offset: Self::Offset) -> Self;

    /// Recovers the zone from one of its offsets.
    fn from_offset(offset: &Self::Offset) -> (r: Self)
        ensures
            r == Self::spec_from_offset(*offset),
    ;

    /// Resolves a local timestamp to the offsets under which it occurs.
    fn offset_from_local_datetime(&self, local: &NaiveDateTime) -> (r: MappedLocalTime<
        Self::Offset,
    >)
        ensures
            r == self.spec_offset_from_local(*local),
            r.wf(),
    ;

    /// Gives the offset in force at a UTC timestamp; always exactly one.
    fn offset_from_utc_datetime(&self, utc: &NaiveDateTime) -> (r: Self::Offset)
        ensures
            r == self.spec_offset_from_utc(*utc),
    ;

    /// Reads a UTC timestamp in this zone.
    fn from_utc_datetime(&self, utc: &NaiveDateTime) -> (r: DateTime<Self::Offset>)
        ensures
            r == DateTime::spec_new(*utc, self.spec_offset_from_utc(*utc)),
    {
        let offset = self.offset_from_utc_datetime(utc);
        DateTime::from_naive_utc_and_offset(*utc, offset)
    }

    /// Resolves a local timestamp in this zone to the instants it may denote.
    fn from_local_datetime(&self, local: &NaiveDateTime) -> (r: MappedLocalTime<
        DateTime<Self::Offset>,
    >)
        ensures
            r == attach(*local, self.spec_offset_from_local(*local)),
            r.wf(),
    {
        let m = self.offset_from_local_datetime(local);
        match m {
            MappedLocalTime::Single(o) => match local.checked_sub_offset(o.fix()) {
                Some(u) => MappedLocalTime::Single(DateTime::from_naive_utc_and_offset(u, o)),
                None => MappedLocalTime::Skipped,
            },
            MappedLocalTime::Ambiguous(a, b) => {
                let ua = local.checked_sub_offset(a.fix());
                let ub = local.checked_sub_offset(b.fix());
                match (ua, ub) {
                    (Some(ua), Some(ub)) => MappedLocalTime::Ambiguous(
                        DateTime::from_naive_utc_and_offset(ua, a),
                        DateTime::from_naive_utc_and_offset(ub, b),
                    ),
                    _ => MappedLocalTime::Skipped,
                }
            },
            MappedLocalTime::Skipped => MappedLocalTime::Skipped,
        }
    }
}

} // verus!
