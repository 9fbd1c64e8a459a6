use crate::arith::fits_scalar;
use crate::text::{all_digits, dec_int, digits_val, i64_to_string, parse_digits};
use crate::vertical::{
    InSemitones, InSteps, Octaves, Semitones, SemitonesFromC0, Steps, StepsFromC0, TransposedBy,
};
use crate::Scalar;
use vstd::prelude::*;

verus! {

/// An octave range from C to B, identified by its distance in octaves up
/// from C0.
#[derive(Copy, Clone, PartialEq, Eq, Structural, Hash, Debug)]
pub struct Octave {
    pub octaves_from_c0: Octaves,
}

/// What parsing an octave gives: the value of a run of decimal digits.
pub open spec fn octave_parse(s: Seq<char>) -> Result<Octave, ()> {
    if s.len() > 0 && all_digits(s) && digits_val(s) <= i64::MAX {
        Ok(Octave { octaves_from_c0: Octaves(digits_val(s) as Scalar) })
    } else {
        Err(())
    }
}

impl Octave {
    /// The octave number as text.
    pub fn to_string(&self) -> (s: String)
        ensures
            s@ == dec_int(self.octaves_from_c0.0 as int),
    {
        i64_to_string(self.octaves_from_c0.0)
    }
}

impl core::convert::TryFrom<&str> for Octave {
    type Error = ();

    /// Parses an octave number from a run of decimal digits.
    fn try_from(value: &str) -> Result<Octave, ()> {
        match parse_digits(value) {
            Ok(n) => Ok(Octave { octaves_from_c0: Octaves(n) }),
            Err(()) => Err(()),
        }
    }
}

impl vstd::std_specs::convert::TryFromSpecImpl<&str> for Octave {
    open spec fn obeys_try_from_spec() -> bool {
        true
    }

    open spec fn try_from_spec(v: &str) -> Result<Octave, ()> {
        octave_parse(v@)
    }
}

impl StepsFromC0 for Octave {
    open spec fn steps_from_c0_req(&self) -> bool {
        fits_scalar(7 * self.octaves_from_c0.0)
    }

    fn steps_from_c0(&self) -> (r: Steps)
        ensures
            r.0 == 7 * self.octaves_from_c0.0,
    {
        self.octaves_from_c0.in_steps()
    }
}

impl SemitonesFromC0 for Octave {
    open spec fn semitones_from_c0_req(&self) -> bool {
        fits_scalar(12 * self.octaves_from_c0.0)
    }

    fn semitones_from_c0(&self) -> (r: Semitones)
        ensures
            r.0 == 12 * self.octaves_from_c0.0,
    {
        self.octaves_from_c0.in_semitones()
    }
}

impl core::ops::Sub for Octave {
    type Output = Octaves;

    fn sub(self, rhs: Octave) -> Octaves {
        self.octaves_from_c0 - rhs.octaves_from_c0
    }
}

impl vstd::std_specs::ops::SubSpecImpl for Octave {
    open spec fn obeys_sub_spec() -> bool {
        true
    }

    open spec fn sub_req(self, rhs: Octave) -> bool {
        fits_scalar(self.octaves_from_c0.0 - rhs.octaves_from_c0.0)
    }

    open spec fn sub_spec(self, rhs: Octave) -> Octaves {
        Octaves((self.octaves_from_c0.0 - rhs.octaves_from_c0.0) as Scalar)
    }
}

impl TransposedBy<Octaves> for Octave {
    open spec fn transposed_by_req(&self, delta: Octaves) -> bool {
        fits_scalar(self.octaves_from_c0.0 + delta.0)
    }

    fn transposed_by(&self, delta: Octaves) -> (r: Self)
        ensures
            r.octaves_from_c0.0 == self.octaves_from_c0.0 + delta.0,
    {
        Octave { octaves_from_c0: self.octaves_from_c0 + delta }
    }
}

impl core::convert::From<Scalar> for Octave {
    fn from(scalar: Scalar) -> Octave {
        Octave { octaves_from_c0: Octaves(scalar) }
    }
}

impl vstd::std_specs::convert::FromSpecImpl<Scalar> for Octave {
    open spec fn obeys_from_spec() -> bool {
        true
    }

    open spec fn from_spec(v: Scalar) -> Octave {
        Octave { octaves_from_c0: Octaves(v) }
    }
}

} // verus!
