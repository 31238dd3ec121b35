//! Properties that hold across the functions of the library, proved once
//! over the spec functions that their contracts are written in.

use vstd::prelude::*;

use crate::datetime::DateTime;
use crate::fixed::{in_offset_range, FixedOffset, RangeError};
use crate::mapped::MappedLocalTime;
use crate::naive::{in_timestamp_range, NaiveDateTime};
use crate::utc::Utc;
use crate::zone::{attach, Offset, TimeZone};

verus! {

/// An offset built east or west from an in-range second count reports,
/// once fixed, exactly that displacement (negated for west).
pub proof fn lemma_fix_keeps_seconds(secs: int)
    requires
        in_offset_range(secs),
    ensures
        FixedOffset::spec_east(secs) matches Ok(o) && o.spec_fix().seconds() == secs,
        FixedOffset::spec_west(secs) matches Ok(o) && o.spec_fix().seconds() == -secs,
{
    FixedOffset::lemma_spec_east(secs);
    FixedOffset::lemma_spec_east(-secs);
}

/// A second count of a full day or more in magnitude is refused by both
/// constructors with a range error.
pub proof fn lemma_full_day_refused(secs: int)
    requires
        secs <= -86_400 || secs >= 86_400,
    ensures
        FixedOffset::spec_east(secs) == Err::<FixedOffset, RangeError>(RangeError),
        FixedOffset::spec_west(secs) == Err::<FixedOffset, RangeError>(RangeError),
{
    FixedOffset::lemma_spec_east(secs);
    FixedOffset::lemma_spec_east(-secs);
}

/// UTC resolves every local time to the single zero offset, and gives the
/// zero offset at every UTC time.
pub proof fn lemma_utc_always_zero(t: NaiveDateTime)
    ensures
        Utc.spec_offset_from_local(t) == MappedLocalTime::Single(Utc),
        Utc.seconds() == 0,
        Utc.spec_offset_from_utc(t).seconds() == 0,
{
}

/// The fixed form of UTC is the zero offset east of UTC.
pub proof fn lemma_utc_fix_is_east_zero()
    ensures
        FixedOffset::spec_east(0) == Ok::<FixedOffset, RangeError>(Utc.spec_fix()),
{
    FixedOffset::lemma_spec_east(0);
}

/// Reading a UTC timestamp as local time under a fixed offset and then
/// back as UTC gives the timestamp again, and the instant that the zone
/// assigns to the UTC timestamp is the one unique answer for the local
/// time. The local time exists whenever it is representable.
pub proof fn lemma_fixed_offset_round_trip(o: FixedOffset, t: NaiveDateTime)
    requires
        t.valid(),
    ensures
        in_timestamp_range(t.seconds() + o.seconds()) ==> t.spec_shift(o.seconds()) is Some,
        t.spec_shift(o.seconds()) matches Some(local) ==> {
            &&& local.spec_shift(-o.seconds()) == Some(t)
            &&& attach(local, o.spec_offset_from_local(local)) == MappedLocalTime::Single(
                DateTime::spec_new(t, o.spec_offset_from_utc(t)),
            )
        },
{
    NaiveDateTime::lemma_from_parts(t.seconds() + o.seconds(), t.nanos());
    if let Some(local) = t.spec_shift(o.seconds()) {
        NaiveDateTime::lemma_from_parts(t.seconds(), t.nanos());
        NaiveDateTime::lemma_parts_determine(local.spec_shift(-o.seconds())->Some_0, t);
    }
}

/// Zones without transitions, fixed offsets and UTC, never report a local
/// time as ambiguous or skipped.
pub proof fn lemma_fixed_zones_single(o: FixedOffset, t: NaiveDateTime)
    ensures
        o.spec_offset_from_local(t) is Single,
        Utc.spec_offset_from_local(t) is Single,
{
}

/// In every zone, an ambiguous resolution carries two different answers,
/// both for offsets and for the instants built from them.
pub proof fn lemma_ambiguous_answers_differ<Z: TimeZone>(z: &Z, t: NaiveDateTime)
    ensures
        z.spec_offset_from_local(t).wf(),
        attach(t, z.spec_offset_from_local(t)).wf(),
{
    z.lemma_offset_from_local_wf(t);
    if let MappedLocalTime::Ambiguous(a, b) = z.spec_offset_from_local(t) {
        if let (Some(ua), Some(ub)) = (t.spec_shift(-a.seconds()), t.spec_shift(-b.seconds())) {
            DateTime::lemma_new(ua, a, DateTime::spec_new(ub, b));
            DateTime::lemma_new(ub, b, DateTime::spec_new(ua, a));
        }
    }
}

} // verus!
