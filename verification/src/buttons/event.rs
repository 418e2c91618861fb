//! The gestures that the engine reports.

use vstd::prelude::*;
use crate::time::Ms;

verus! {

/// How long a press has lasted, in four steps.
#[derive(Debug, Clone, Copy, PartialEq, Eq, Structural, Hash)]
pub enum Length {
    Short,
    Medium,
    Long,
    VeryLong,
}

/// What a press is: unclassified, or the how-manieth of a run of clicks.
#[derive(Debug, Clone, Copy, PartialEq, Eq, Structural, Hash)]
pub enum Kind {
    Raw,
    Single(Length),
    Double(Length),
    Triple(Length),
    Repeated(Length, u8),
}

/// A report to the handler.
#[derive(Debug, Clone, Copy, PartialEq, Eq, Structural, Hash)]
pub enum Event {
    Release(Kind),
    Press(Kind),
    Hold(Ms),
}

impl Length {
    /// Position of the length in the order Short < Medium < Long < VeryLong.
    pub open spec fn rank(self) -> nat {
        match self {
            Length::Short => 0,
            Length::Medium => 1,
            Length::Long => 2,
            Length::VeryLong => 3,
        }
    }
}

impl Kind {
    /// The length that a classified kind carries; `Raw` carries none.
    pub open spec fn length(self) -> Option<Length> {
        match self {
            Kind::Raw => None,
            Kind::Single(l) | Kind::Double(l) | Kind::Triple(l) | Kind::Repeated(l, _) => Some(l),
        }
    }

    /// The same click family with another length.
    pub open spec fn spec_with_length(self, length: Length) -> Kind {
        match self {
            Kind::Raw => Kind::Raw,
            Kind::Single(_) => Kind::Single(length),
            Kind::Double(_) => Kind::Double(length),
            Kind::Triple(_) => Kind::Triple(length),
            Kind::Repeated(_, count) => Kind::Repeated(length, count),
        }
    }

    /// Replaces the length of a classified kind and keeps its click family.
    pub fn with_length(self, length: Length) -> (kind: Kind)
        requires
            self != Kind::Raw,
        ensures
            kind == self.spec_with_length(length),
            kind.length() == Some(length),
    {
        match self {
            Kind::Raw => Kind::Raw,
            Kind::Single(_) => Kind::Single(length),
            Kind::Double(_) => Kind::Double(length),
            Kind::Triple(_) => Kind::Triple(length),
            Kind::Repeated(_, count) => Kind::Repeated(length, count),
        }
    }
}

impl Event {
    /// The kind of a press or release.
    pub open spec fn spec_kind(self) -> Kind {
        match self {
            Event::Release(k) => k,
            Event::Press(k) => k,
            Event::Hold(_) => Kind::Raw,
        }
    }

    /// The release that answers a press.
    pub open spec fn spec_into_release(self) -> Event {
        Event::Release(self.spec_kind())
    }

    /// The same press or release with another length.
    pub open spec fn spec_with_length(self, length: Length) -> Event {
        match self {
            Event::Release(k) => Event::Release(k.spec_with_length(length)),
            Event::Press(k) => Event::Press(k.spec_with_length(length)),
            Event::Hold(d) => Event::Hold(d),
        }
    }

    /// A press of a classified kind: the only events the engine remembers.
    pub open spec fn is_classified_press(self) -> bool {
        self matches Event::Press(k) && k != Kind::Raw
    }

    /// Turns a press into the matching release; a release stays as it is.
    pub fn into_release(self) -> (release: Event)
        requires
            !(self is Hold),
        ensures
            release == self.spec_into_release(),
    {
        match self {
            Event::Release(_) => self,
            Event::Press(k) => Event::Release(k),
            Event::Hold(_) => self,
        }
    }

    /// Replaces the length carried by a classified press or release.
    pub fn with_length(self, length: Length) -> (event: Event)
        requires
            !(self is Hold),
            self.spec_kind() != Kind::Raw,
        ensures
            event == self.spec_with_length(length),
            event.spec_kind().length() == Some(length),
    {
        match self {
            Event::Release(k) => Event::Release(k.with_length(length)),
            Event::Press(k) => Event::Press(k.with_length(length)),
            Event::Hold(_) => self,
        }
    }

    /// The kind of a press or release.
    pub fn kind(&self) -> (kind: Kind)
        requires
            !(*self is Hold),
        ensures
            kind == self.spec_kind(),
    {
        match self {
            Event::Release(k) => *k,
            Event::Press(k) => *k,
            Event::Hold(_) => Kind::Raw,
        }
    }
}

} // verus!
