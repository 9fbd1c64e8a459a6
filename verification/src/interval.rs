//! Intervals: diatonic size categories, chromatic quality, and exact
//! arithmetic on simple and compound intervals.
use vstd::prelude::*;

mod interval;
mod interval_class;
mod interval_quality;
mod interval_root;
mod sets;
mod utils;

pub use self::interval::{
    interval_of_dyad, iroot_perfect_class, ivl_add_req, ivl_add_spec, ivl_canonical, ivl_le, ivl_semis, ivl_steps,
    ivl_sub_req, ivl_sub_spec, lemma_interval_add_sizes, lemma_interval_sub_add_round_trip,
    Interval,
};
pub use self::interval_class::{
    ic_add_req, ic_add_spec, ic_inverted_req, ic_inverted_spec, ic_le, ic_lt, ic_quality,
    ic_sub_pos_spec, ic_sub_req, ic_sub_spec, lemma_ic_inverted_involutive, IntervalClass,
};
pub use self::interval_quality::{
    quality_is_perfect, quality_text, GetIntervalQuality, IntervalQuality, IsPerfect,
};
pub use self::interval_root::{
    iroot_from_steps, iroot_of_step, iroot_perfect, iroot_semi, iroot_step,
    lemma_iroot_of_small_step, IntervalRoot,
};
pub use self::sets::{IntervalClassSet, IntervalRootSet, IntervalSet};
pub use self::utils::{
    augmented, diminished, double_augmented, double_diminished, major, minor, perfect,
    IntervalClassUtils,
};

verus! {

/// Inversion: the complementary value within one cycle.
pub trait Inverted: Sized {
    /// When the inverted value stays within the scalar range.
    spec fn inverted_req(self) -> bool;

    /// Returns the inversion of the value.
    fn inverted(self) -> Self
        requires
            self.inverted_req(),
    ;
}

} // verus!
