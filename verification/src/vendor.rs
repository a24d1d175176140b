//! Vendor prefix sets, represented as a small bit-set.

use vstd::prelude::*;

verus! {

/// A set of vendor prefixes (plus the "unprefixed" member), with no ordering
/// among its members: only presence and absence matter.
#[derive(Clone, Copy, Debug, PartialEq, Eq, Structural)]
pub struct VendorPrefix {
    /// One bit per member; see the constructors for the assignment.
    pub bits: u8,
}

impl VendorPrefix {
    /// The empty set.
    pub fn empty() -> (r: Self)
        ensures
            r.bits == 0,
    {
        VendorPrefix { bits: 0 }
    }

    /// The set holding only the "unprefixed" member.
    pub fn unprefixed() -> (r: Self)
        ensures
            r.bits == 1,
    {
        VendorPrefix { bits: 1 }
    }

    /// The set holding only the `-webkit-` prefix.
    pub fn webkit() -> (r: Self)
        ensures
            r.bits == 2,
    {
        VendorPrefix { bits: 2 }
    }

    /// The set holding only the `-moz-` prefix.
    pub fn moz() -> (r: Self)
        ensures
            r.bits == 4,
    {
        VendorPrefix { bits: 4 }
    }

    /// The set holding only the `-ms-` prefix.
    pub fn ms() -> (r: Self)
        ensures
            r.bits == 8,
    {
        VendorPrefix { bits: 8 }
    }

    /// The set holding only the `-o-` prefix.
    pub fn o() -> (r: Self)
        ensures
            r.bits == 16,
    {
        VendorPrefix { bits: 16 }
    }

    /// Whether the set holds the "unprefixed" member.
    pub open spec fn spec_has_unprefixed(self) -> bool {
        self.bits & 1 == 1
    }

    /// The set is exactly the one-member set of the "unprefixed" member.
    pub open spec fn spec_is_unprefixed_only(self) -> bool {
        self.bits == 1
    }

    /// Set union.
    pub open spec fn spec_union(self, other: Self) -> Self {
        VendorPrefix { bits: self.bits | other.bits }
    }

    /// Set union, as executable code.
    pub fn union(self, other: Self) -> (r: Self)
        ensures
            r == self.spec_union(other),
    {
        VendorPrefix { bits: self.bits | other.bits }
    }

    /// Set intersection.
    pub open spec fn spec_intersect(self, other: Self) -> Self {
        VendorPrefix { bits: self.bits & other.bits }
    }

    /// Set intersection, as executable code.
    pub fn intersect(self, other: Self) -> (r: Self)
        ensures
            r == self.spec_intersect(other),
    {
        VendorPrefix { bits: self.bits & other.bits }
    }

    /// Whether `other` is a subset of `self`.
    pub open spec fn spec_contains(self, other: Self) -> bool {
        self.bits & other.bits == other.bits
    }

    /// Subset test, as executable code.
    pub fn contains(self, other: Self) -> (r: bool)
        ensures
            r == self.spec_contains(other),
    {
        self.bits & other.bits == other.bits
    }

    /// The set with every member of `other` removed.
    pub open spec fn spec_remove(self, other: Self) -> Self {
        VendorPrefix { bits: self.bits & !other.bits }
    }

    /// Removal, as executable code.
    pub fn remove(self, other: Self) -> (r: Self)
        ensures
            r == self.spec_remove(other),
    {
        VendorPrefix { bits: self.bits & !other.bits }
    }

    /// Whether the set has no members.
    pub open spec fn spec_is_empty(self) -> bool {
        self.bits == 0
    }

    /// Emptiness test, as executable code.
    pub fn is_empty(self) -> (r: bool)
        ensures
            r == self.spec_is_empty(),
    {
        self.bits == 0
    }
}

} // verus!
