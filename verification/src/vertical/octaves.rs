use crate::arith::fits_scalar;
use crate::vertical::{InSemitones, InSteps, Semitones, Steps};
use crate::Scalar;
use vstd::prelude::*;

verus! {

/// A distance in octaves; one octave is seven steps and twelve semitones.
#[derive(Copy, Clone, PartialEq, Eq, Structural, Hash, Debug)]
pub struct Octaves(pub Scalar);

/// Measuring a value as an octave distance.
pub trait InOctaves {
    /// When the octave count stays within the scalar range.
    spec fn in_octaves_req(&self) -> bool;

    /// Returns its distance in octaves.
    fn in_octaves(&self) -> Octaves
        requires
            self.in_octaves_req(),
    ;
}

impl InSteps for Octaves {
    open spec fn in_steps_req(&self) -> bool {
        fits_scalar(7 * self.0)
    }

    fn in_steps(&self) -> (r: Steps)
        ensures
            r.0 == 7 * self.0,
    {
        Steps(7 * self.0)
    }
}

impl InSemitones for Octaves {
    open spec fn in_semitones_req(&self) -> bool {
        fits_scalar(12 * self.0)
    }

    fn in_semitones(&self) -> (r: Semitones)
        ensures
            r.0 == 12 * self.0,
    {
        Semitones(12 * self.0)
    }
}

impl core::ops::Add for Octaves {
    type Output = Octaves;

    fn add(self, rhs: Octaves) -> Octaves {
        Octaves(self.0 + rhs.0)
    }
}

impl vstd::std_specs::ops::AddSpecImpl for Octaves {
    open spec fn obeys_add_spec() -> bool {
        true
    }

    open spec fn add_req(self, rhs: Octaves) -> bool {
        fits_scalar(self.0 + rhs.0)
    }

    open spec fn add_spec(self, rhs: Octaves) -> Octaves {
        Octaves((self.0 + rhs.0) as Scalar)
    }
}

impl core::ops::Sub for Octaves {
    type Output = Octaves;

    fn sub(self, rhs: Octaves) -> Octaves {
        Octaves(self.0 - rhs.0)
    }
}

impl vstd::std_specs::ops::SubSpecImpl for Octaves {
    open spec fn obeys_sub_spec() -> bool {
        true
    }

    open spec fn sub_req(self, rhs: Octaves) -> bool {
        fits_scalar(self.0 - rhs.0)
    }

    open spec fn sub_spec(self, rhs: Octaves) -> Octaves {
        Octaves((self.0 - rhs.0) as Scalar)
    }
}

impl core::convert::From<Scalar> for Octaves {
    fn from(scalar: Scalar) -> Octaves {
        Octaves(scalar)
    }
}

impl vstd::std_specs::convert::FromSpecImpl<Scalar> for Octaves {
    open spec fn obeys_from_spec() -> bool {
        true
    }

    open spec fn from_spec(v: Scalar) -> Octaves {
        Octaves(v)
    }
}

} // verus!
