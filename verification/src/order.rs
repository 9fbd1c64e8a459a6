//! A total order that verified code can rely on.
//!
//! The standard comparison traits say nothing to the verifier about the
//! impls that `derive` writes, so the types whose ordering matters (pitches,
//! pitch classes, pitch roots) implement this trait instead: a specification
//! order, an executable comparison tied to it, and proofs of the order laws.
use vstd::prelude::*;

verus! {

/// A total order on a type, usable both in contracts and in executable code.
pub trait TotalOrder: Sized {
    /// The specification-level "less than or equal" relation.
    spec fn le_spec(&self, other: &Self) -> bool;

    /// Any two values are comparable.
    proof fn lemma_le_total(&self, other: &Self)
        ensures
            self.le_spec(other) || other.le_spec(self),
    ;

    /// Mutual "less than or equal" values are the same value.
    proof fn lemma_le_antisymmetric(&self, other: &Self)
        requires
            self.le_spec(other),
            other.le_spec(self),
        ensures
            self == other,
    ;

    /// The relation carries over a middle value.
    proof fn lemma_le_transitive(&self, mid: &Self, other: &Self)
        requires
            self.le_spec(mid),
            mid.le_spec(other),
        ensures
            self.le_spec(other),
    ;

    /// Decides the specification order.
    fn le(&self, other: &Self) -> (r: bool)
        ensures
            r == self.le_spec(other),
    ;
}

impl TotalOrder for i64 {
    open spec fn le_spec(&self, other: &Self) -> bool {
        *self <= *other
    }

    proof fn lemma_le_total(&self, other: &Self) {
    }

    proof fn lemma_le_antisymmetric(&self, other: &Self) {
    }

    proof fn lemma_le_transitive(&self, mid: &Self, other: &Self) {
    }

    fn le(&self, other: &Self) -> (r: bool) {
        *self <= *other
    }
}

/// A strictly ascending sequence: the view of a set kept as a sorted vector
/// without duplicates.
pub open spec fn sorted_distinct<T: TotalOrder>(s: Seq<T>) -> bool {
    forall|i: int, j: int|
        0 <= i < j < s.len() ==> #[trigger] s[i].le_spec(&s[j]) && s[i] != s[j]
}

/// Whether the element at `i` orders strictly below `x`.
fn elem_strictly_below<T: TotalOrder>(v: &Vec<T>, i: usize, x: &T) -> (r: bool)
    requires
        i < v@.len(),
    ensures
        r == (v@[i as int].le_spec(x) && !x.le_spec(&v@[i as int])),
{
    let vi = &v[i];
    vi.le(x) && !x.le(vi)
}

/// Inserts a value into a sorted vector without duplicates, keeping it
/// sorted; a value already present is left alone.
pub fn set_insert<T: TotalOrder + Copy>(v: &mut Vec<T>, x: T)
    requires
        sorted_distinct(old(v)@),
    ensures
        sorted_distinct(final(v)@),
        forall|y: T| final(v)@.contains(y) <==> (old(v)@.contains(y) || y == x),
        old(v)@.len() <= final(v)@.len() <= old(v)@.len() + 1,
{
    let mut i: usize = 0;
    while i < v.len() && elem_strictly_below(v, i, &x)
        invariant
            i <= v@.len(),
            v@ == old(v)@,
            sorted_distinct(v@),
            forall|k: int| 0 <= k < i ==> #[trigger] v@[k].le_spec(&x) && v@[k] != x,
        decreases v@.len() - i,
    {
        proof {
            // A value below x cannot be x itself: the order is reflexive.
            x.lemma_le_total(&x);
        }
        i = i + 1;
    }
    if i < v.len() {
        let vi = v[i];
        if vi.le(&x) {
            // The scan stopped on a value not strictly below x that still
            // orders at or below it: that value is x, already present.
            proof {
                vi.lemma_le_antisymmetric(&x);
                assert(v@[i as int] == x);
                assert(v@.contains(x));
            }
            return ;
        }
    }
    let ghost before = v@;
    proof {
        assert(forall|k: int| 0 <= k < i ==> #[trigger] before[k].le_spec(&x) && before[k] != x);
        // x orders strictly below the whole suffix.
        assert forall|k: int| i <= k < before.len() implies #[trigger] x.le_spec(&before[k]) && x
            != before[k] by {
            x.lemma_le_total(&before[i as int]);
            if x == before[i as int] {
                x.lemma_le_total(&x);
                assert(false);
            }
            if i < k {
                x.lemma_le_transitive(&before[i as int], &before[k]);
            }
            if x == before[k] {
                assert(before[i as int].le_spec(&x));
                assert(false);
            }
        }
        before.insert_ensures(i as int, x);
    }
    v.insert(i, x);
    proof {
        let ii = i as int;
        assert forall|a: int, b: int|
            0 <= a < b < v@.len() implies #[trigger] v@[a].le_spec(&v@[b]) && v@[a] != v@[b] by {
            if b < ii {
                assert(v@[a] == before[a]);
                assert(v@[b] == before[b]);
                assert(before[a].le_spec(&before[b]) && before[a] != before[b]);
            } else if a < ii && b == ii {
                assert(v@[a] == before[a]);
                assert(v@[b] == x);
                assert(0 <= a < i as int);
                assert(before[a].le_spec(&x));
                assert(before[a] != x);
            } else if a < ii && b > ii {
                assert(v@[a] == before[a]);
                assert(v@[b] == before[b - 1]);
                assert(x.le_spec(&before[b - 1]) && x != before[b - 1]);
                before[a].lemma_le_transitive(&x, &before[b - 1]);
                if before[a] == before[b - 1] {
                    before[a].lemma_le_antisymmetric(&x);
                }
            } else if a == ii {
                assert(v@[a] == x);
                assert(v@[b] == before[b - 1]);
                assert(x.le_spec(&before[b - 1]) && x != before[b - 1]);
            } else {
                assert(v@[a] == before[a - 1]);
                assert(v@[b] == before[b - 1]);
                assert(before[a - 1].le_spec(&before[b - 1]) && before[a - 1] != before[b - 1]);
            }
        }
        assert forall|y: T| v@.contains(y) <==> (before.contains(y) || y == x) by {
            if v@.contains(y) {
                let j = choose|j: int| 0 <= j < v@.len() && v@[j] == y;
                if j < ii {
                    assert(before[j] == y);
                    assert(before.contains(y));
                } else if j > ii {
                    assert(before[j - 1] == y);
                    assert(before.contains(y));
                }
            }
            if before.contains(y) {
                let j = choose|j: int| 0 <= j < before.len() && before[j] == y;
                if j < ii {
                    assert(v@[j] == y);
                } else {
                    assert(v@[j + 1] == y);
                }
                assert(v@.contains(y));
            }
            if y == x {
                assert(v@[ii] == y);
                assert(v@.contains(y));
            }
        }
    }
}

} // verus!
