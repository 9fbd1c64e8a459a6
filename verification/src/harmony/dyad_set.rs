use crate::harmony::Dyad;
use vstd::prelude::*;

verus! {

/// A set of dyads: a sorted vector without duplicates.
pub type DyadSet<T> = Vec<Dyad<T>>;

} // verus!
