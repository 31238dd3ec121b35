//! A UTC timestamp paired with the offset of the zone it is seen in.

use vstd::prelude::*;

use crate::naive::NaiveDateTime;

verus! {

/// An instant: its UTC timestamp and the offset under which it is read.
#[derive(Clone, Copy, Debug, PartialEq, Eq, Hash, Structural)]
pub struct DateTime<O> {
    datetime: NaiveDateTime,
    offset: O,
}

impl<O: Copy> DateTime<O> {
    /// The instant as a UTC timestamp.
    pub closed spec fn utc(self) -> NaiveDateTime {
        self.datetime
    }

    /// The offset the instant is read under.
    pub closed spec fn spec_offset(self) -> O {
        self.offset
    }

    /// The instant with UTC timestamp `utc` and offset `offset`.
    pub closed spec fn spec_new(utc: NaiveDateTime, offset: O) -> DateTime<O> {
        DateTime { datetime: utc, offset }
    }

    /// An instant is determined by its UTC timestamp and its offset.
    pub proof fn lemma_new(utc: NaiveDateTime, offset: O, d: DateTime<O>)
        ensures
            Self::spec_new(utc, offset).utc() == utc,
            Self::spec_new(utc, offset).spec_offset() == offset,
            (d.utc() == utc && d.spec_offset() == offset) <==> d == Self::spec_new(utc, offset),
    {
    }

    /// Pairs a UTC timestamp with an offset.
    pub fn from_naive_utc_and_offset(datetime: NaiveDateTime, offset: O) -> (r: DateTime<O>)
        ensures
            r == Self::spec_new(datetime, offset),
            r.utc() == datetime,
            r.spec_offset() == offset,
    {
        DateTime { datetime, offset }
    }

    /// The instant as a UTC timestamp.
    pub fn naive_utc(&self) -> (r: NaiveDateTime)
        ensures
            r == self.utc(),
    {
        self.datetime
    }

    /// The offset the instant is read under.
    pub fn offset(&self) -> (r: O)
        ensures
            r == self.spec_offset(),
    {
        self.offset
    }
}

} // verus!
