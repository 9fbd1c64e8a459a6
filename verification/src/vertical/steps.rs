use crate::arith::{div_trunc, fits_scalar, tdiv};
use crate::vertical::{InOctaves, Octaves};
use crate::Scalar;
use vstd::prelude::*;

verus! {

/// A distance in diatonic letter steps (C to D is one step).
#[derive(Copy, Clone, PartialEq, Eq, Structural, Hash, Debug)]
pub struct Steps(pub Scalar);

/// Measuring a value as a step distance.
pub trait InSteps {
    /// When the step count stays within the scalar range.
    spec fn in_steps_req(&self) -> bool;

    /// Returns its distance in steps.
    fn in_steps(&self) -> Steps
        requires
            self.in_steps_req(),
    ;
}

/// The position of a class-like value in steps upward from C.
pub trait StepsFromC {
    /// Returns the relative position in steps upward from C.
    fn steps_from_c(&self) -> Steps;
}

/// The absolute position of a pitched value in steps from C0.
pub trait StepsFromC0 {
    /// When the step count stays within the scalar range.
    spec fn steps_from_c0_req(&self) -> bool;

    /// Returns the relative position in steps from C0.
    fn steps_from_c0(&self) -> Steps
        requires
            self.steps_from_c0_req(),
    ;
}

impl InOctaves for Steps {
    open spec fn in_octaves_req(&self) -> bool {
        true
    }

    fn in_octaves(&self) -> (r: Octaves)
        ensures
            r.0 == tdiv(self.0 as int, 7),
    {
        Octaves(div_trunc(self.0, 7))
    }
}

impl core::ops::Add for Steps {
    type Output = Steps;

    fn add(self, rhs: Steps) -> Steps {
        Steps(self.0 + rhs.0)
    }
}

impl vstd::std_specs::ops::AddSpecImpl for Steps {
    open spec fn obeys_add_spec() -> bool {
        true
    }

    open spec fn add_req(self, rhs: Steps) -> bool {
        fits_scalar(self.0 + rhs.0)
    }

    open spec fn add_spec(self, rhs: Steps) -> Steps {
        Steps((self.0 + rhs.0) as Scalar)
    }
}

impl core::ops::Sub for Steps {
    type Output = Steps;

    fn sub(self, rhs: Steps) -> Steps {
        Steps(self.0 - rhs.0)
    }
}

impl vstd::std_specs::ops::SubSpecImpl for Steps {
    open spec fn obeys_sub_spec() -> bool {
        true
    }

    open spec fn sub_req(self, rhs: Steps) -> bool {
        fits_scalar(self.0 - rhs.0)
    }

    open spec fn sub_spec(self, rhs: Steps) -> Steps {
        Steps((self.0 - rhs.0) as Scalar)
    }
}

impl core::convert::From<Scalar> for Steps {
    fn from(scalar: Scalar) -> Steps {
        Steps(scalar)
    }
}

impl vstd::std_specs::convert::FromSpecImpl<Scalar> for Steps {
    open spec fn obeys_from_spec() -> bool {
        true
    }

    open spec fn from_spec(v: Scalar) -> Steps {
        Steps(v)
    }
}

} // verus!
