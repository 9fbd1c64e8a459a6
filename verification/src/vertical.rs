//! Scalar distances: steps, semitones and octaves, with their fixed-ratio
//! conversions (one octave is seven steps and twelve semitones).
use vstd::prelude::*;

mod octaves;
mod semitones;
mod steps;

pub use self::octaves::{InOctaves, Octaves};
pub use self::semitones::{InSemitones, Semitones, SemitonesFromC, SemitonesFromC0};
pub use self::steps::{InSteps, Steps, StepsFromC, StepsFromC0};

verus! {

/// Transposition by a distance: shifting a value without changing its kind.
pub trait TransposedBy<T>: Sized {
    /// When the transposed value stays within the scalar range.
    spec fn transposed_by_req(&self, delta: T) -> bool;

    /// Returns the current value transposed by `delta`.
    fn transposed_by(&self, delta: T) -> Self
        requires
            self.transposed_by_req(delta),
    ;
}

} // verus!
