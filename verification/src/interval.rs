//! A closed scalar range used for hit distances and clamping.
//!
//! The canonical `empty` interval is (max scalar, min scalar) and contains
//! nothing; `universe` is (min scalar, max scalar) and contains everything.
//! `contains` is inclusive while `surrounds` is exclusive — the distinction
//! matters at grazing intersections.

use vstd::prelude::*;
use crate::fixed::Fx;

verus! {

/// An ordered pair (min, max) of scalars.
#[derive(Debug, Clone, Copy)]
pub struct Interval(pub Fx, pub Fx);

impl Default for Interval {
    /// The default interval is the empty one.
    fn default() -> (r: Interval)
        ensures
            r.0.m == i64::MAX,
            r.1.m == i64::MIN,
    {
        Interval::empty()
    }
}

impl Interval {
    pub fn new(min: Fx, max: Fx) -> (r: Interval)
        ensures
            r.0 == min,
            r.1 == max,
    {
        Interval(min, max)
    }

    /// The interval that contains no scalar at all.
    pub fn empty() -> (r: Interval)
        ensures
            r.0.m == i64::MAX,
            r.1.m == i64::MIN,
            forall|v: Fx| !r.contains_spec(v),
    {
        Interval::new(Fx::max_value(), Fx::min_value())
    }

    /// The interval that contains every scalar.
    pub fn universe() -> (r: Interval)
        ensures
            r.0.m == i64::MIN,
            r.1.m == i64::MAX,
            forall|v: Fx| r.contains_spec(v),
    {
        Interval::new(Fx::min_value(), Fx::max_value())
    }

    pub fn min(&self) -> (r: Fx)
        ensures
            r == self.0,
    {
        self.0
    }

    pub fn max(&self) -> (r: Fx)
        ensures
            r == self.1,
    {
        self.1
    }

    /// `value` lies in the closed range [min, max].
    pub open spec fn contains_spec(self, value: Fx) -> bool {
        self.0.m <= value.m && value.m <= self.1.m
    }

    /// `value` lies in the open range (min, max).
    pub open spec fn surrounds_spec(self, value: Fx) -> bool {
        self.0.m < value.m && value.m < self.1.m
    }

    pub fn contains(&self, value: Fx) -> (r: bool)
        ensures
            r == self.contains_spec(value),
    {
        self.0.m <= value.m && value.m <= self.1.m
    }

    pub fn surrounds(&self, value: Fx) -> (r: bool)
        ensures
            r == self.surrounds_spec(value),
    {
        self.0.m < value.m && value.m < self.1.m
    }

    /// `value` saturated into the closed range [min, max].
    pub open spec fn clamp_spec(self, value: Fx) -> Fx {
        if value.m < self.0.m {
            self.0
        } else if value.m > self.1.m {
            self.1
        } else {
            value
        }
    }

    pub fn clamp(&self, value: Fx) -> (r: Fx)
        ensures
            r == self.clamp_spec(value),
            self.0.m <= self.1.m ==> self.contains_spec(r),
    {
        if value.m < self.0.m {
            self.0
        } else if value.m > self.1.m {
            self.1
        } else {
            value
        }
    }
}

/// The open range is strictly finer than the closed one: `surrounds` implies
/// `contains`, and the endpoints are contained but never surrounded.
pub proof fn lemma_surrounds_strictly_within(iv: Interval, value: Fx)
    ensures
        iv.surrounds_spec(value) ==> iv.contains_spec(value),
        iv.0.m <= iv.1.m ==> iv.contains_spec(iv.0) && iv.contains_spec(iv.1),
        !iv.surrounds_spec(iv.0) && !iv.surrounds_spec(iv.1),
{
}

} // verus!
