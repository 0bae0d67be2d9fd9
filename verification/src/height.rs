//! Chain heights and their order.

use vstd::prelude::*;
use std::cmp::Ordering;
use vstd::std_specs::cmp::PartialOrdSpecImpl;

verus! {

/// A position in a chain's history: the revision of the chain, and the block
/// height within that revision.
#[derive(Clone, Copy, Debug, PartialEq, Eq, Structural, Hash)]
pub struct Height {
    pub revision_number: u64,
    pub revision_height: u64,
}

impl Height {
    /// The strict order on heights: by revision first, then by height within
    /// the revision.
    pub open spec fn spec_lt(self, other: Height) -> bool {
        self.revision_number < other.revision_number || (self.revision_number
            == other.revision_number && self.revision_height < other.revision_height)
    }

    /// The non-strict order: strictly below, or equal.
    pub open spec fn spec_le(self, other: Height) -> bool {
        self.spec_lt(other) || self == other
    }

    /// The zero height stands for "no height" (for example: no timeout).
    pub open spec fn spec_is_zero(self) -> bool {
        self.revision_number == 0 && self.revision_height == 0
    }

    pub fn new(revision_number: u64, revision_height: u64) -> (h: Height)
        ensures
            h.revision_number == revision_number,
            h.revision_height == revision_height,
    {
        Height { revision_number, revision_height }
    }

    pub fn zero() -> (h: Height)
        ensures
            h.spec_is_zero(),
    {
        Height { revision_number: 0, revision_height: 0 }
    }

    pub fn is_zero(&self) -> (r: bool)
        ensures
            r == self.spec_is_zero(),
    {
        self.revision_number == 0 && self.revision_height == 0
    }

    pub fn lt(&self, other: &Height) -> (r: bool)
        ensures
            r == self.spec_lt(*other),
    {
        self.revision_number < other.revision_number || (self.revision_number
            == other.revision_number && self.revision_height < other.revision_height)
    }

    pub fn le(&self, other: &Height) -> (r: bool)
        ensures
            r == self.spec_le(*other),
    {
        self.lt(other) || (self.revision_number == other.revision_number && self.revision_height
            == other.revision_height)
    }

    pub fn gt(&self, other: &Height) -> (r: bool)
        ensures
            r == other.spec_lt(*self),
    {
        other.lt(self)
    }

    pub fn ge(&self, other: &Height) -> (r: bool)
        ensures
            r == other.spec_le(*self),
    {
        other.le(self)
    }

    /// The next height within the same revision, unless the height counter is
    /// at its limit.
    pub fn increment(&self) -> (r: Option<Height>)
        ensures
            r.is_some() == (self.revision_height < u64::MAX),
            r.is_some() ==> r.unwrap().revision_number == self.revision_number
                && r.unwrap().revision_height == self.revision_height + 1,
    {
        if self.revision_height < u64::MAX {
            Some(
                Height {
                    revision_number: self.revision_number,
                    revision_height: self.revision_height + 1,
                },
            )
        } else {
            None
        }
    }
}

impl PartialOrd for Height {
    fn partial_cmp(&self, other: &Height) -> (r: Option<Ordering>) {
        if self.lt(other) {
            Some(Ordering::Less)
        } else if other.lt(self) {
            Some(Ordering::Greater)
        } else {
            Some(Ordering::Equal)
        }
    }
}

impl PartialOrdSpecImpl for Height {
    open spec fn obeys_partial_cmp_spec() -> bool {
        true
    }

    open spec fn partial_cmp_spec(&self, other: &Height) -> Option<Ordering> {
        if self.spec_lt(*other) {
            Some(Ordering::Less)
        } else if other.spec_lt(*self) {
            Some(Ordering::Greater)
        } else {
            Some(Ordering::Equal)
        }
    }
}

/// No height is below itself.
pub proof fn lemma_height_lt_irreflexive(h: Height)
    ensures
        !h.spec_lt(h),
{
}

/// Of two heights, exactly one of these holds: the first is below the second,
/// they are equal, or the second is below the first.
pub proof fn lemma_height_trichotomy(h1: Height, h2: Height)
    ensures
        h1.spec_lt(h2) || h1 == h2 || h2.spec_lt(h1),
        !(h1.spec_lt(h2) && h1 == h2),
        !(h1.spec_lt(h2) && h2.spec_lt(h1)),
        !(h1 == h2 && h2.spec_lt(h1)),
{
}

/// The strict order is transitive.
pub proof fn lemma_height_lt_transitive(h1: Height, h2: Height, h3: Height)
    requires
        h1.spec_lt(h2),
        h2.spec_lt(h3),
    ensures
        h1.spec_lt(h3),
{
}

/// The strict order is the lexicographic order on the pair of revision number
/// and revision height.
pub proof fn lemma_height_lt_is_lexicographic(h1: Height, h2: Height)
    ensures
        h1.spec_lt(h2) <==> (h1.revision_number < h2.revision_number || (h1.revision_number
            == h2.revision_number && h1.revision_height < h2.revision_height)),
        h1.spec_le(h2) <==> !h2.spec_lt(h1),
{
}

} // verus!
