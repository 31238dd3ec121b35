//! Zone-less timestamps: a point on the civil time line with no offset attached.

use vstd::prelude::*;

use crate::fixed::FixedOffset;

verus! {

/// Earliest representable timestamp, in seconds since 1970-01-01T00:00:00.
pub const MIN_TIMESTAMP: i64 = -8_334_601_228_800;

/// Latest representable timestamp, in seconds since 1970-01-01T00:00:00.
pub const MAX_TIMESTAMP: i64 = 8_210_266_876_799;

/// Nanoseconds in one second; the sub-second part stays below it.
pub const NANOS_PER_SEC: u32 = 1_000_000_000;

/// Whether a second count lies in the representable range.
pub open spec fn in_timestamp_range(secs: int) -> bool {
    MIN_TIMESTAMP <= secs <= MAX_TIMESTAMP
}

/// A civil date and time without an offset, counted in whole seconds since
/// 1970-01-01T00:00:00 plus a sub-second part in nanoseconds.
///
/// Ordering by the derived `Ord` is chronological: seconds first, then nanoseconds.
#[derive(Clone, Copy, Debug, PartialEq, Eq, PartialOrd, Ord, Hash, Structural)]
pub struct NaiveDateTime {
    secs: i64,
    frac: u32,
}

impl NaiveDateTime {
    #[verifier::type_invariant]
    spec fn inv(self) -> bool {
        in_timestamp_range(self.secs as int) && self.frac < NANOS_PER_SEC
    }

    /// Whole seconds since 1970-01-01T00:00:00.
    pub closed spec fn seconds(self) -> int {
        self.secs as int
    }

    /// Nanoseconds past the whole second.
    pub closed spec fn nanos(self) -> int {
        self.frac as int
    }

    /// Whether the parts are those of a representable timestamp, as they
    /// are for every value of the type.
    pub open spec fn valid(self) -> bool {
        in_timestamp_range(self.seconds()) && 0 <= self.nanos() < NANOS_PER_SEC
    }

    /// The timestamp with the given parts, when they are representable.
    pub closed spec fn spec_from_parts(secs: int, nanos: int) -> Option<NaiveDateTime> {
        if in_timestamp_range(secs) && 0 <= nanos < NANOS_PER_SEC {
            Some(NaiveDateTime { secs: secs as i64, frac: nanos as u32 })
        } else {
            None
        }
    }

    /// This timestamp moved by `delta` seconds, when the result is representable.
    pub open spec fn spec_shift(self, delta: int) -> Option<NaiveDateTime> {
        Self::spec_from_parts(self.seconds() + delta, self.nanos())
    }

    /// A timestamp is determined by its seconds and nanoseconds.
    pub proof fn lemma_parts_determine(a: NaiveDateTime, b: NaiveDateTime)
        ensures
            (a.seconds() == b.seconds() && a.nanos() == b.nanos()) <==> a == b,
    {
    }

    /// What `spec_from_parts` builds, and when.
    pub proof fn lemma_from_parts(secs: int, nanos: int)
        ensures
            Self::spec_from_parts(secs, nanos) is Some <==> (in_timestamp_range(secs) && 0
                <= nanos < NANOS_PER_SEC),
            Self::spec_from_parts(secs, nanos) matches Some(t) ==> t.seconds() == secs
                && t.nanos() == nanos,
    {
    }

    /// Makes the timestamp `secs` seconds and `nsecs` nanoseconds after
    /// 1970-01-01T00:00:00; `None` when it is out of range or `nsecs` is
    /// not below one second.
    pub fn from_timestamp(secs: i64, nsecs: u32) -> (r: Option<NaiveDateTime>)
        ensures
            r == Self::spec_from_parts(secs as int, nsecs as int),
            r is Some <==> (in_timestamp_range(secs as int) && nsecs < NANOS_PER_SEC),
            r matches Some(t) ==> t.seconds() == secs && t.nanos() == nsecs,
    {
        if MIN_TIMESTAMP <= secs && secs <= MAX_TIMESTAMP && nsecs < NANOS_PER_SEC {
            Some(NaiveDateTime { secs, frac: nsecs })
        } else {
            None
        }
    }

    /// Whole seconds since 1970-01-01T00:00:00.
    pub fn timestamp(&self) -> (r: i64)
        ensures
            r == self.seconds(),
            in_timestamp_range(r as int),
    {
        proof {
            use_type_invariant(self);
        }
        self.secs
    }

    /// Nanoseconds past the whole second.
    pub fn timestamp_subsec_nanos(&self) -> (r: u32)
        ensures
            r == self.nanos(),
            r < NANOS_PER_SEC,
    {
        proof {
            use_type_invariant(self);
        }
        self.frac
    }

    /// Moves the timestamp by `delta` seconds, checking the range.
    fn checked_shift(self, delta: i32) -> (r: Option<NaiveDateTime>)
        ensures
            r == self.spec_shift(delta as int),
    {
        proof {
            use_type_invariant(&self);
        }
        let secs = self.secs + delta as i64;
        if MIN_TIMESTAMP <= secs && secs <= MAX_TIMESTAMP {
            Some(NaiveDateTime { secs, frac: self.frac })
        } else {
            None
        }
    }

    /// Reads this UTC timestamp as local time under `offset`: adds the
    /// offset's seconds. `None` when the result is out of range.
    pub fn checked_add_offset(self, offset: FixedOffset) -> (r: Option<NaiveDateTime>)
        ensures
            r == self.spec_shift(offset.seconds()),
            r is Some <==> in_timestamp_range(self.seconds() + offset.seconds()),
            r matches Some(t) ==> t.seconds() == self.seconds() + offset.seconds() && t.nanos()
                == self.nanos(),
    {
        proof {
            use_type_invariant(&self);
        }
        self.checked_shift(offset.local_minus_utc())
    }

    /// Reads this local timestamp as UTC under `offset`: subtracts the
    /// offset's seconds. `None` when the result is out of range.
    pub fn checked_sub_offset(self, offset: FixedOffset) -> (r: Option<NaiveDateTime>)
        ensures
            r == self.spec_shift(-offset.seconds()),
            r is Some <==> in_timestamp_range(self.seconds() - offset.seconds()),
            r matches Some(t) ==> t.seconds() == self.seconds() - offset.seconds() && t.nanos()
                == self.nanos(),
    {
        proof {
            use_type_invariant(&self);
        }
        self.checked_shift(offset.utc_minus_local())
    }
}

} // verus!
