use crate::interval::{Interval, IntervalClass, IntervalRoot};
use vstd::prelude::*;

verus! {

/// A set of intervals: a sorted vector without duplicates.
pub type IntervalSet = Vec<Interval>;

/// A set of interval classes: a sorted vector without duplicates.
pub type IntervalClassSet = Vec<IntervalClass>;

/// A set of interval roots: a sorted vector without duplicates.
pub type IntervalRootSet = Vec<IntervalRoot>;

} // verus!
