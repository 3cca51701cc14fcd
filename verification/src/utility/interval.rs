//! Ranges of scalars.
use vstd::prelude::*;
use crate::utility::scalar::Scalar;

verus! {

/// The range from `min` to `max`; it is empty where `max < min`.
#[derive(Clone, Copy, Debug, PartialEq, Eq, Structural)]
pub struct Interval {
    pub min: Scalar,
    pub max: Scalar,
}

impl Interval {
    pub open spec fn spec_new(min: Scalar, max: Scalar) -> Interval {
        Interval { min, max }
    }

    /// The range that holds nothing and that every union absorbs.
    pub open spec fn spec_empty() -> Interval {
        Interval { min: Scalar::spec_infinity(), max: Scalar::spec_neg_infinity() }
    }

    /// The range that holds every scalar.
    pub open spec fn spec_universe() -> Interval {
        Interval { min: Scalar::spec_neg_infinity(), max: Scalar::spec_infinity() }
    }

    /// The smallest range that holds both.
    pub open spec fn spec_concat(self, rhs: Interval) -> Interval {
        Interval { min: self.min.spec_min(rhs.min), max: self.max.spec_max(rhs.max) }
    }

    pub open spec fn spec_size(self) -> Scalar {
        self.max.spec_sub(self.min)
    }

    pub open spec fn spec_contains(self, x: Scalar) -> bool {
        self.min.raw <= x.raw <= self.max.raw
    }

    pub open spec fn spec_surrounds(self, x: Scalar) -> bool {
        self.min.raw < x.raw < self.max.raw
    }

    pub open spec fn spec_clamp(self, x: Scalar) -> Scalar {
        if x.raw < self.min.raw {
            self.min
        } else if x.raw > self.max.raw {
            self.max
        } else {
            x
        }
    }

    /// The range grown by `delta / 2` at each end.
    pub open spec fn spec_expand(self, delta: Scalar) -> Interval {
        let padding = delta.spec_div(Scalar::spec_from_int(2));
        Interval { min: self.min.spec_sub(padding), max: self.max.spec_add(padding) }
    }

    /// The range moved by `offset`.
    pub open spec fn spec_add(self, offset: Scalar) -> Interval {
        Interval { min: self.min.spec_add(offset), max: self.max.spec_add(offset) }
    }

    pub fn new(min: Scalar, max: Scalar) -> (r: Interval)
        ensures
            r == Interval::spec_new(min, max),
    {
        Interval { min, max }
    }

    pub fn empty() -> (r: Interval)
        ensures
            r == Interval::spec_empty(),
    {
        Interval { min: Scalar::infinity(), max: Scalar::neg_infinity() }
    }

    pub fn universe() -> (r: Interval)
        ensures
            r == Interval::spec_universe(),
    {
        Interval { min: Scalar::neg_infinity(), max: Scalar::infinity() }
    }

    /// Grows the range to hold `rhs` too.
    pub fn concat(&mut self, rhs: Interval)
        ensures
            *final(self) == old(self).spec_concat(rhs),
    {
        self.min = self.min.min(rhs.min);
        self.max = self.max.max(rhs.max);
    }

    pub fn size(&self) -> (r: Scalar)
        ensures
            r == self.spec_size(),
    {
        self.max.sub(self.min)
    }

    pub fn contains(&self, x: Scalar) -> (r: bool)
        ensures
            r == self.spec_contains(x),
    {
        self.min.raw <= x.raw && x.raw <= self.max.raw
    }

    pub fn surrounds(&self, x: Scalar) -> (r: bool)
        ensures
            r == self.spec_surrounds(x),
    {
        self.min.raw < x.raw && x.raw < self.max.raw
    }

    pub fn clamp(&self, x: Scalar) -> (r: Scalar)
        ensures
            r == self.spec_clamp(x),
    {
        if x.raw < self.min.raw {
            return self.min;
        }
        if x.raw > self.max.raw {
            return self.max;
        }
        x
    }

    pub fn expand(&self, delta: Scalar) -> (r: Interval)
        ensures
            r == self.spec_expand(delta),
    {
        let padding: Scalar = delta.div(Scalar::from_int(2));
        Interval { min: self.min.sub(padding), max: self.max.add(padding) }
    }

    pub fn add(self, offset: Scalar) -> (r: Interval)
        ensures
            r == self.spec_add(offset),
    {
        Interval { min: self.min.add(offset), max: self.max.add(offset) }
    }
}

impl Default for Interval {
    fn default() -> (r: Interval)
        ensures
            r == Interval::spec_empty(),
    {
        Interval::empty()
    }
}

/// The union of two ranges does not depend on their order.
pub proof fn lemma_concat_commutative(a: Interval, b: Interval)
    ensures
        a.spec_concat(b) == b.spec_concat(a),
{
}

/// The empty range changes no union.
pub proof fn lemma_concat_empty(a: Interval)
    ensures
        a.spec_concat(Interval::spec_empty()) == a,
        Interval::spec_empty().spec_concat(a) == a,
{
}

/// The union of two ranges holds whatever either holds.
pub proof fn lemma_concat_contains(a: Interval, b: Interval, x: Scalar)
    requires
        a.spec_contains(x) || b.spec_contains(x),
    ensures
        a.spec_concat(b).spec_contains(x),
{
}

/// A clamped scalar lies in the range, where the range is not empty.
pub proof fn lemma_clamp_contained(a: Interval, x: Scalar)
    requires
        a.min.raw <= a.max.raw,
    ensures
        a.spec_contains(a.spec_clamp(x)),
{
}

} // verus!
