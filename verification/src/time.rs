//! Millisecond timestamps with wraparound-safe subtraction.

use vstd::prelude::*;

verus! {

/// A reading of a monotonic millisecond counter, or a span between two readings.
///
/// The counter wraps around at `usize::MAX`. Two readings can be compared only
/// when they lie within one wrap period of each other.
#[derive(Debug, Copy, Clone, PartialEq, Eq, Structural, PartialOrd, Ord, Hash)]
pub struct Ms(pub usize);

/// The span from `reference` to `now` on a counter that wraps at `usize::MAX`.
pub open spec fn wrapping_elapsed(now: usize, reference: usize) -> usize {
    if now >= reference {
        (now - reference) as usize
    } else {
        (now - reference + usize::MAX + 1) as usize
    }
}

impl Ms {
    /// The reading `span` after `self` on a counter that wraps at `usize::MAX`.
    pub open spec fn later_by(self, span: Ms) -> Ms {
        if self.0 + span.0 > usize::MAX {
            Ms((self.0 + span.0 - usize::MAX - 1) as usize)
        } else {
            Ms((self.0 + span.0) as usize)
        }
    }

    /// The span from `reference` to `self`, taken modulo the width of the counter.
    pub open spec fn spec_elapsed_since(self, reference: Ms) -> Ms {
        Ms(wrapping_elapsed(self.0, reference.0))
    }

    /// Time elapsed since `reference`, tolerating one wraparound of the counter.
    pub fn elapsed_since(&self, reference: Ms) -> (elapsed: Ms)
        ensures
            elapsed == self.spec_elapsed_since(reference),
            self.0 >= reference.0 ==> elapsed.0 == self.0 - reference.0,
    {
        Ms(self.0.wrapping_sub(reference.0))
    }

    /// The timestamp `rhs` after `self`.
    pub fn add(self, rhs: Ms) -> (sum: Ms)
        requires
            self.0 + rhs.0 <= usize::MAX,
        ensures
            sum.0 == self.0 + rhs.0,
    {
        Ms(self.0 + rhs.0)
    }

    /// The span between `rhs` and the later timestamp `self`.
    pub fn sub(self, rhs: Ms) -> (difference: Ms)
        requires
            rhs.0 <= self.0,
        ensures
            difference.0 == self.0 - rhs.0,
    {
        Ms(self.0 - rhs.0)
    }
}

/// Moving a timestamp forward by a span and measuring back gives the span,
/// whether or not the counter wrapped in between.
pub proof fn lemma_elapsed_inverts_wrapping_advance(start: Ms, span: Ms)
    ensures
        Ms(vstd::wrapping::usize_specs::wrapping_add(start.0, span.0)).spec_elapsed_since(start) == span,
{
}

/// The span between two readings stays the same when both are taken later by
/// the same amount, whether or not the counter wraps on the way.
pub proof fn lemma_elapsed_ignores_a_common_shift(now: Ms, reference: Ms, by: Ms)
    ensures
        now.later_by(by).spec_elapsed_since(reference.later_by(by)) == now.spec_elapsed_since(
            reference,
        ),
{
}

/// No time has passed between a timestamp and itself.
pub proof fn lemma_elapsed_since_self(t: Ms)
    ensures
        t.spec_elapsed_since(t) == Ms(0),
{
}

} // verus!
