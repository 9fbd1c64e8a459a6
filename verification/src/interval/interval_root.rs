use crate::arith::mod_euclid;
use crate::interval::{GetIntervalQuality, IntervalQuality, Inverted, IsPerfect};
use crate::pitch::{root_step, PitchRootDyad};
use crate::vertical::{InSemitones, InSteps, Semitones, Steps, StepsFromC};
use vstd::prelude::*;

verus! {

/// One of the seven simple interval sizes: Unison, Second, Third, Fourth,
/// Fifth, Sixth or Seventh, cyclic with a step value of 0 to 6.
#[derive(Copy, Clone, PartialEq, Eq, Structural, Hash, Debug)]
pub enum IntervalRoot {
    Unison,
    Second,
    Third,
    Fourth,
    Fifth,
    Sixth,
    Seventh,
}

/// The step value of an interval root: 0 for Unison up to 6 for Seventh.
pub open spec fn iroot_step(r: IntervalRoot) -> int {
    match r {
        IntervalRoot::Unison => 0,
        IntervalRoot::Second => 1,
        IntervalRoot::Third => 2,
        IntervalRoot::Fourth => 3,
        IntervalRoot::Fifth => 4,
        IntervalRoot::Sixth => 5,
        IntervalRoot::Seventh => 6,
    }
}

/// The natural semitone size of an interval root (the major or perfect one).
pub open spec fn iroot_semi(r: IntervalRoot) -> int {
    match r {
        IntervalRoot::Unison => 0,
        IntervalRoot::Second => 2,
        IntervalRoot::Third => 4,
        IntervalRoot::Fourth => 5,
        IntervalRoot::Fifth => 7,
        IntervalRoot::Sixth => 9,
        IntervalRoot::Seventh => 11,
    }
}

/// The interval root at a step value between 0 and 6.
pub open spec fn iroot_of_step(k: int) -> IntervalRoot {
    if k == 0 {
        IntervalRoot::Unison
    } else if k == 1 {
        IntervalRoot::Second
    } else if k == 2 {
        IntervalRoot::Third
    } else if k == 3 {
        IntervalRoot::Fourth
    } else if k == 4 {
        IntervalRoot::Fifth
    } else if k == 5 {
        IntervalRoot::Sixth
    } else {
        IntervalRoot::Seventh
    }
}

/// The interval root reached by wrapping an arbitrary step count into the
/// seven-step cycle.
pub open spec fn iroot_from_steps(n: int) -> IntervalRoot {
    iroot_of_step(n % 7)
}

/// Whether an interval root is a perfect size (Unison, Fourth or Fifth).
pub open spec fn iroot_perfect(r: IntervalRoot) -> bool {
    match r {
        IntervalRoot::Unison => true,
        IntervalRoot::Second => false,
        IntervalRoot::Third => false,
        IntervalRoot::Fourth => true,
        IntervalRoot::Fifth => true,
        IntervalRoot::Sixth => false,
        IntervalRoot::Seventh => false,
    }
}

impl InSteps for IntervalRoot {
    open spec fn in_steps_req(&self) -> bool {
        true
    }

    fn in_steps(&self) -> (r: Steps)
        ensures
            r.0 == iroot_step(*self),
    {
        let value: i64 = match *self {
            Self::Unison => 0,
            Self::Second => 1,
            Self::Third => 2,
            Self::Fourth => 3,
            Self::Fifth => 4,
            Self::Sixth => 5,
            Self::Seventh => 6,
        };
        Steps(value)
    }
}

impl InSemitones for IntervalRoot {
    open spec fn in_semitones_req(&self) -> bool {
        true
    }

    fn in_semitones(&self) -> (r: Semitones)
        ensures
            r.0 == iroot_semi(*self),
    {
        let value: i64 = match *self {
            Self::Unison => 0,
            Self::Second => 2,
            Self::Third => 4,
            Self::Fourth => 5,
            Self::Fifth => 7,
            Self::Sixth => 9,
            Self::Seventh => 11,
        };
        Semitones(value)
    }
}

impl IsPerfect for IntervalRoot {
    fn is_perfect(&self) -> (r: bool)
        ensures
            r == iroot_perfect(*self),
    {
        match *self {
            Self::Unison => true,
            Self::Second => false,
            Self::Third => false,
            Self::Fourth => true,
            Self::Fifth => true,
            Self::Sixth => false,
            Self::Seventh => false,
        }
    }
}

impl GetIntervalQuality for IntervalRoot {
    open spec fn get_interval_quality_req(&self) -> bool {
        true
    }

    fn get_interval_quality(&self) -> (r: IntervalQuality)
        ensures
            r == (if iroot_perfect(*self) {
                IntervalQuality::Perfectable(Semitones(0))
            } else {
                IntervalQuality::Imperfect(Semitones(0))
            }),
    {
        match self.is_perfect() {
            true => IntervalQuality::Perfectable(Semitones(0)),
            false => IntervalQuality::Imperfect(Semitones(0)),
        }
    }
}

impl core::ops::Add for IntervalRoot {
    type Output = IntervalRoot;

    fn add(self, rhs: IntervalRoot) -> IntervalRoot {
        IntervalRoot::from(self.in_steps() + rhs.in_steps())
    }
}

impl vstd::std_specs::ops::AddSpecImpl for IntervalRoot {
    open spec fn obeys_add_spec() -> bool {
        true
    }

    open spec fn add_req(self, rhs: IntervalRoot) -> bool {
        true
    }

    open spec fn add_spec(self, rhs: IntervalRoot) -> IntervalRoot {
        iroot_from_steps(iroot_step(self) + iroot_step(rhs))
    }
}

impl core::ops::Sub for IntervalRoot {
    type Output = IntervalRoot;

    fn sub(self, rhs: IntervalRoot) -> IntervalRoot {
        IntervalRoot::from(self.in_steps() - rhs.in_steps())
    }
}

impl vstd::std_specs::ops::SubSpecImpl for IntervalRoot {
    open spec fn obeys_sub_spec() -> bool {
        true
    }

    open spec fn sub_req(self, rhs: IntervalRoot) -> bool {
        true
    }

    open spec fn sub_spec(self, rhs: IntervalRoot) -> IntervalRoot {
        iroot_from_steps(iroot_step(self) - iroot_step(rhs))
    }
}

impl Inverted for IntervalRoot {
    open spec fn inverted_req(self) -> bool {
        true
    }

    /// The inverted root completes the cycle: its step value is `7 - steps`,
    /// wrapped, so Unison inverts to itself.
    fn inverted(self) -> (r: Self)
        ensures
            r == iroot_from_steps(7 - iroot_step(self)),
    {
        IntervalRoot::from(Steps(7) - self.in_steps())
    }
}

impl IntervalRoot {
    /// The size number of the root: its step value plus one, "1" for Unison
    /// up to "7" for Seventh.
    pub fn to_string(&self) -> (s: String)
        ensures
            s@ == crate::text::dec_digits((iroot_step(*self) + 1) as nat),
    {
        let n: u64 = (self.in_steps().0 as u64) + 1;
        crate::text::u64_to_string(n)
    }
}

impl core::convert::From<Steps> for IntervalRoot {
    /// Creates an interval root from a step count, wrapping around if the
    /// steps are less than 0 or more than 6.
    fn from(steps: Steps) -> IntervalRoot {
        let k = mod_euclid(steps.0, 7);
        if k == 0 {
            Self::Unison
        } else if k == 1 {
            Self::Second
        } else if k == 2 {
            Self::Third
        } else if k == 3 {
            Self::Fourth
        } else if k == 4 {
            Self::Fifth
        } else if k == 5 {
            Self::Sixth
        } else {
            Self::Seventh
        }
    }
}

impl vstd::std_specs::convert::FromSpecImpl<Steps> for IntervalRoot {
    open spec fn obeys_from_spec() -> bool {
        true
    }

    open spec fn from_spec(v: Steps) -> IntervalRoot {
        iroot_from_steps(v.0 as int)
    }
}

/// A step value already in range wraps to its own interval root.
pub proof fn lemma_iroot_of_small_step(k: int)
    requires
        0 <= k < 7,
    ensures
        iroot_from_steps(k) == iroot_of_step(k),
{
    vstd::arithmetic::div_mod::lemma_fundamental_div_mod_converse_mod(k, 7, 0, k);
}

impl core::convert::From<&PitchRootDyad> for IntervalRoot {
    /// The interval root spanned by a dyad of pitch roots, counted upward
    /// from the low root.
    fn from(dyad: &PitchRootDyad) -> IntervalRoot {
        let steps = dyad.high.steps_from_c() - dyad.low.steps_from_c();
        IntervalRoot::from(steps)
    }
}

impl vstd::std_specs::convert::FromSpecImpl<&PitchRootDyad> for IntervalRoot {
    open spec fn obeys_from_spec() -> bool {
        true
    }

    open spec fn from_spec(v: &PitchRootDyad) -> IntervalRoot {
        iroot_from_steps(root_step(v.high) - root_step(v.low))
    }
}

} // verus!
