use crate::arith::{div_trunc, fits_scalar, tdiv};
use crate::vertical::{InOctaves, Octaves};
use crate::Scalar;
use vstd::prelude::*;

verus! {

/// A distance in chromatic half steps.
#[derive(Copy, Clone, PartialEq, Eq, Structural, Hash, Debug)]
pub struct Semitones(pub Scalar);

/// Measuring a value as a semitone distance.
pub trait InSemitones {
    /// When the semitone count stays within the scalar range.
    spec fn in_semitones_req(&self) -> bool;

    /// Returns its distance in semitones.
    fn in_semitones(&self) -> Semitones
        requires
            self.in_semitones_req(),
    ;
}

/// The position of a class-like value in semitones upward from C.
pub trait SemitonesFromC {
    /// When the semitone count stays within the scalar range.
    spec fn semitones_from_c_req(&self) -> bool;

    /// Returns the relative position in semitones upward from C.
    fn semitones_from_c(&self) -> Semitones
        requires
            self.semitones_from_c_req(),
    ;
}

/// The absolute position of a pitched value in semitones from C0.
pub trait SemitonesFromC0 {
    /// When the semitone count stays within the scalar range.
    spec fn semitones_from_c0_req(&self) -> bool;

    /// Returns the relative position in semitones from C0.
    fn semitones_from_c0(&self) -> Semitones
        requires
            self.semitones_from_c0_req(),
    ;
}

impl InOctaves for Semitones {
    open spec fn in_octaves_req(&self) -> bool {
        true
    }

    fn in_octaves(&self) -> (r: Octaves)
        ensures
            r.0 == tdiv(self.0 as int, 12),
    {
        Octaves(div_trunc(self.0, 12))
    }
}

impl core::ops::Add for Semitones {
    type Output = Semitones;

    fn add(self, rhs: Semitones) -> Semitones {
        Semitones(self.0 + rhs.0)
    }
}

impl vstd::std_specs::ops::AddSpecImpl for Semitones {
    open spec fn obeys_add_spec() -> bool {
        true
    }

    open spec fn add_req(self, rhs: Semitones) -> bool {
        fits_scalar(self.0 + rhs.0)
    }

    open spec fn add_spec(self, rhs: Semitones) -> Semitones {
        Semitones((self.0 + rhs.0) as Scalar)
    }
}

impl core::ops::Sub for Semitones {
    type Output = Semitones;

    fn sub(self, rhs: Semitones) -> Semitones {
        Semitones(self.0 - rhs.0)
    }
}

impl vstd::std_specs::ops::SubSpecImpl for Semitones {
    open spec fn obeys_sub_spec() -> bool {
        true
    }

    open spec fn sub_req(self, rhs: Semitones) -> bool {
        fits_scalar(self.0 - rhs.0)
    }

    open spec fn sub_spec(self, rhs: Semitones) -> Semitones {
        Semitones((self.0 - rhs.0) as Scalar)
    }
}

impl core::ops::Neg for Semitones {
    type Output = Semitones;

    fn neg(self) -> Semitones {
        Semitones(-self.0)
    }
}

impl vstd::std_specs::ops::NegSpecImpl for Semitones {
    open spec fn obeys_neg_spec() -> bool {
        true
    }

    open spec fn neg_req(self) -> bool {
        fits_scalar(-self.0)
    }

    open spec fn neg_spec(self) -> Semitones {
        Semitones((-self.0) as Scalar)
    }
}

impl core::convert::From<Scalar> for Semitones {
    fn from(scalar: Scalar) -> Semitones {
        Semitones(scalar)
    }
}

impl vstd::std_specs::convert::FromSpecImpl<Scalar> for Semitones {
    open spec fn obeys_from_spec() -> bool {
        true
    }

    open spec fn from_spec(v: Scalar) -> Semitones {
        Semitones(v)
    }
}

/// Ordering by semitone count; `a < b` means `a` is the shorter distance.
impl core::cmp::PartialOrd for Semitones {
    fn partial_cmp(&self, other: &Semitones) -> Option<core::cmp::Ordering> {
        if self.0 < other.0 {
            Some(core::cmp::Ordering::Less)
        } else if self.0 == other.0 {
            Some(core::cmp::Ordering::Equal)
        } else {
            Some(core::cmp::Ordering::Greater)
        }
    }
}

impl vstd::std_specs::cmp::PartialOrdSpecImpl for Semitones {
    open spec fn obeys_partial_cmp_spec() -> bool {
        true
    }

    open spec fn partial_cmp_spec(&self, other: &Semitones) -> Option<core::cmp::Ordering> {
        if self.0 < other.0 {
            Some(core::cmp::Ordering::Less)
        } else if self.0 == other.0 {
            Some(core::cmp::Ordering::Equal)
        } else {
            Some(core::cmp::Ordering::Greater)
        }
    }
}

} // verus!
