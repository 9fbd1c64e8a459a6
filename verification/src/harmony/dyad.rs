use crate::order::TotalOrder;
use vstd::prelude::*;

verus! {

/// A dyad: a pair of values held in their natural order, the lesser in
/// `low` and the greater in `high`. Built through [`From`], which compares
/// the two inputs, the same dyad comes out of a pair and of its reverse.
#[derive(Copy, Clone, PartialEq, Eq, Structural, Hash, Debug)]
pub struct Dyad<T> {
    pub low: T,
    pub high: T,
}

/// The dyad built from a pair: the second value becomes `high` exactly when
/// it is strictly greater than the first.
pub open spec fn dyad_from_spec<T: TotalOrder>(first: T, second: T) -> Dyad<T> {
    if !second.le_spec(&first) {
        Dyad { low: first, high: second }
    } else {
        Dyad { low: second, high: first }
    }
}

/// A well-formed dyad holds its values in order.
pub open spec fn dyad_wf<T: TotalOrder>(d: Dyad<T>) -> bool {
    d.low.le_spec(&d.high)
}

/// Building a dyad from a pair puts the values in order.
pub proof fn lemma_dyad_from_wf<T: TotalOrder>(first: T, second: T)
    ensures
        dyad_wf(dyad_from_spec(first, second)),
{
    first.lemma_le_total(&second);
}

/// A dyad does not depend on the order its two values are given in.
pub proof fn lemma_dyad_from_symmetric<T: TotalOrder>(first: T, second: T)
    ensures
        dyad_from_spec(first, second) == dyad_from_spec(second, first),
{
    first.lemma_le_total(&second);
    if first.le_spec(&second) && second.le_spec(&first) {
        first.lemma_le_antisymmetric(&second);
    }
}

impl<T: TotalOrder> core::convert::From<(T, T)> for Dyad<T> {
    fn from(tuple: (T, T)) -> Dyad<T> {
        let (first, second) = tuple;
        if !second.le(&first) {
            Dyad { low: first, high: second }
        } else {
            Dyad { low: second, high: first }
        }
    }
}

impl<T: TotalOrder> vstd::std_specs::convert::FromSpecImpl<(T, T)> for Dyad<T> {
    open spec fn obeys_from_spec() -> bool {
        true
    }

    open spec fn from_spec(v: (T, T)) -> Dyad<T> {
        dyad_from_spec(v.0, v.1)
    }
}

} // verus!
