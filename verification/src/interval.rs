//! Half-open intervals with a partial order: one interval is below another
//! when it ends before the other begins, so overlapping intervals are not
//! ordered with respect to each other.

use vstd::prelude::*;
use vstd::std_specs::cmp::PartialEqSpec;
use vstd::std_specs::cmp::PartialEqSpecImpl;
use vstd::std_specs::cmp::PartialOrdIs;
use vstd::std_specs::cmp::PartialOrdSpec;
use vstd::std_specs::cmp::PartialOrdSpecImpl;
use std::cmp::Ordering;

verus! {

/// An interval over `T`: `lower` inclusive, `upper` exclusive.
#[derive(Debug)]
pub struct Interval<T> {
    pub lower: T,
    pub upper: T,
}

impl<T: PartialEq> PartialEq for Interval<T> {
    /// Two intervals are equal when both endpoints are.
    fn eq(&self, other: &Interval<T>) -> (r: bool) {
        self.lower.eq(&other.lower) && self.upper.eq(&other.upper)
    }
}

impl<T: PartialEq> PartialEqSpecImpl for Interval<T> {
    open spec fn obeys_eq_spec() -> bool {
        T::obeys_eq_spec()
    }

    open spec fn eq_spec(&self, other: &Interval<T>) -> bool {
        self.lower.eq_spec(&other.lower) && self.upper.eq_spec(&other.upper)
    }
}

impl<T: PartialOrd> PartialOrd for Interval<T> {
    /// Equal intervals compare equal; otherwise an interval that begins at
    /// or after the other's end is greater, one that ends at or before the
    /// other's start is less, and overlapping intervals are unordered.
    fn partial_cmp(&self, other: &Interval<T>) -> (r: Option<Ordering>) {
        if self.eq(other) {
            Some(Ordering::Equal)
        } else if self.lower.ge(&other.upper) {
            Some(Ordering::Greater)
        } else if self.upper.le(&other.lower) {
            Some(Ordering::Less)
        } else {
            None
        }
    }
}

impl<T: PartialOrd> PartialOrdSpecImpl for Interval<T> {
    open spec fn obeys_partial_cmp_spec() -> bool {
        T::obeys_eq_spec() && T::obeys_partial_cmp_spec()
    }

    open spec fn partial_cmp_spec(&self, other: &Interval<T>) -> Option<Ordering> {
        if PartialEqSpec::eq_spec(self, other) {
            Some(Ordering::Equal)
        } else if self.lower.is_ge(&other.upper) {
            Some(Ordering::Greater)
        } else if self.upper.is_le(&other.lower) {
            Some(Ordering::Less)
        } else {
            None
        }
    }
}

} // verus!
