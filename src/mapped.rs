//! The result of mapping a local timestamp into a zone: none, one, or two answers.

use vstd::prelude::*;

verus! {

/// The outcome of resolving a local (zone-less) timestamp against a zone's rules.
#[derive(Clone, Copy, Debug, PartialEq, Eq, Hash, Structural)]
pub enum MappedLocalTime<T> {
    /// The local time falls in a normal interval: exactly one answer.
    Single(T),
    /// The local time is repeated by a fall-back transition: the earlier
    /// answer first, the later one second. The two always differ.
    Ambiguous(T, T),
    /// The local time is skipped by a spring-forward transition.
    Skipped,
}

impl<T> MappedLocalTime<T> {
    /// The two answers of an ambiguous result differ.
    pub open spec fn wf(self) -> bool {
        self matches MappedLocalTime::Ambiguous(a, b) ==> a != b
    }

    /// The single answer, if there is exactly one.
    pub open spec fn spec_single(self) -> Option<T> {
        match self {
            MappedLocalTime::Single(t) => Some(t),
            _ => None,
        }
    }

    /// The earliest answer, if there is any.
    pub open spec fn spec_earliest(self) -> Option<T> {
        match self {
            MappedLocalTime::Single(t) => Some(t),
            MappedLocalTime::Ambiguous(t, _) => Some(t),
            MappedLocalTime::Skipped => None,
        }
    }

    /// The latest answer, if there is any.
    pub open spec fn spec_latest(self) -> Option<T> {
        match self {
            MappedLocalTime::Single(t) => Some(t),
            MappedLocalTime::Ambiguous(_, t) => Some(t),
            MappedLocalTime::Skipped => None,
        }
    }

    /// Returns the answer when it is unique, `None` when the time is
    /// skipped or ambiguous.
    pub fn single(self) -> (r: Option<T>)
        ensures
            r == self.spec_single(),
    {
        match self {
            MappedLocalTime::Single(t) => Some(t),
            _ => None,
        }
    }

    /// Returns the earliest answer: the unique one, or the first of two.
    pub fn earliest(self) -> (r: Option<T>)
        ensures
            r == self.spec_earliest(),
    {
        match self {
            MappedLocalTime::Single(t) => Some(t),
            MappedLocalTime::Ambiguous(t, _) => Some(t),
            MappedLocalTime::Skipped => None,
        }
    }

    /// Returns the latest answer: the unique one, or the second of two.
    pub fn latest(self) -> (r: Option<T>)
        ensures
            r == self.spec_latest(),
    {
        match self {
            MappedLocalTime::Single(t) => Some(t),
            MappedLocalTime::Ambiguous(_, t) => Some(t),
            MappedLocalTime::Skipped => None,
        }
    }
}

} // verus!
