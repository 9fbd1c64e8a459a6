use crate::arith::{fits_scalar, mod_euclid};
use crate::interval::{iroot_step, IntervalRoot};
use crate::order::TotalOrder;
use crate::vertical::{InSteps, Semitones, SemitonesFromC, Steps, StepsFromC, TransposedBy};
use vstd::arithmetic::div_mod::lemma_mod_add_multiples_vanish;
use vstd::prelude::*;

verus! {

/// One of the seven roots a pitch can have: C, D, E, F, G, A or B, cyclic
/// with a step value of 0 to 6 counted up from C.
#[derive(Copy, Clone, PartialEq, Eq, Structural, Hash, Debug)]
pub enum PitchRoot {
    C,
    D,
    E,
    F,
    G,
    A,
    B,
}

/// The step value of a pitch root: 0 for C up to 6 for B.
pub open spec fn root_step(r: PitchRoot) -> int {
    match r {
        PitchRoot::C => 0,
        PitchRoot::D => 1,
        PitchRoot::E => 2,
        PitchRoot::F => 3,
        PitchRoot::G => 4,
        PitchRoot::A => 5,
        PitchRoot::B => 6,
    }
}

/// The natural semitone value of a pitch root, counted up from C.
pub open spec fn root_semi(r: PitchRoot) -> int {
    match r {
        PitchRoot::C => 0,
        PitchRoot::D => 2,
        PitchRoot::E => 4,
        PitchRoot::F => 5,
        PitchRoot::G => 7,
        PitchRoot::A => 9,
        PitchRoot::B => 11,
    }
}

/// The pitch root at a step value between 0 and 6.
pub open spec fn root_of_step(k: int) -> PitchRoot {
    if k == 0 {
        PitchRoot::C
    } else if k == 1 {
        PitchRoot::D
    } else if k == 2 {
        PitchRoot::E
    } else if k == 3 {
        PitchRoot::F
    } else if k == 4 {
        PitchRoot::G
    } else if k == 5 {
        PitchRoot::A
    } else {
        PitchRoot::B
    }
}

/// The pitch root reached by wrapping an arbitrary step count into the
/// seven-step cycle.
pub open spec fn root_from_steps(n: int) -> PitchRoot {
    root_of_step(n % 7)
}

/// Periodicity: step counts seven apart name the same root.
pub proof fn lemma_root_from_steps_periodic(n: int)
    ensures
        root_from_steps(n + 7) == root_from_steps(n),
{
    lemma_mod_add_multiples_vanish(n, 7);
}

/// The letter of a pitch root.
pub open spec fn root_char(r: PitchRoot) -> char {
    match r {
        PitchRoot::C => 'C',
        PitchRoot::D => 'D',
        PitchRoot::E => 'E',
        PitchRoot::F => 'F',
        PitchRoot::G => 'G',
        PitchRoot::A => 'A',
        PitchRoot::B => 'B',
    }
}

/// The pitch root a letter names, if any.
pub open spec fn root_of_char(c: char) -> Option<PitchRoot> {
    if c == 'C' {
        Some(PitchRoot::C)
    } else if c == 'D' {
        Some(PitchRoot::D)
    } else if c == 'E' {
        Some(PitchRoot::E)
    } else if c == 'F' {
        Some(PitchRoot::F)
    } else if c == 'G' {
        Some(PitchRoot::G)
    } else if c == 'A' {
        Some(PitchRoot::A)
    } else if c == 'B' {
        Some(PitchRoot::B)
    } else {
        None
    }
}

/// What parsing a pitch root gives: the root a single letter names, or a
/// failure on any other text.
pub open spec fn root_parse(s: Seq<char>) -> Result<PitchRoot, &'static str> {
    if s.len() == 1 && root_of_char(s[0]) is Some {
        Ok(root_of_char(s[0]).unwrap())
    } else {
        Err("Could not recognise pitch root")
    }
}

impl PitchRoot {
    /// The letter of the root as text.
    pub fn to_string(&self) -> (s: String)
        ensures
            s@ == seq![root_char(*self)],
    {
        proof {
            reveal_strlit("C");
            reveal_strlit("D");
            reveal_strlit("E");
            reveal_strlit("F");
            reveal_strlit("G");
            reveal_strlit("A");
            reveal_strlit("B");
        }
        let lit: &str = match *self {
            Self::C => "C",
            Self::D => "D",
            Self::E => "E",
            Self::F => "F",
            Self::G => "G",
            Self::A => "A",
            Self::B => "B",
        };
        let s = String::from_str(lit);
        proof {
            assert(s@ =~= seq![root_char(*self)]);
        }
        s
    }
}

impl core::convert::TryFrom<&str> for PitchRoot {
    type Error = &'static str;

    /// Parses a single root letter.
    fn try_from(value: &str) -> Result<PitchRoot, &'static str> {
        if value.unicode_len() != 1 {
            return Err("Could not recognise pitch root");
        }
        let c = value.get_char(0);
        if c == 'C' {
            Ok(Self::C)
        } else if c == 'D' {
            Ok(Self::D)
        } else if c == 'E' {
            Ok(Self::E)
        } else if c == 'F' {
            Ok(Self::F)
        } else if c == 'G' {
            Ok(Self::G)
        } else if c == 'A' {
            Ok(Self::A)
        } else if c == 'B' {
            Ok(Self::B)
        } else {
            Err("Could not recognise pitch root")
        }
    }
}

impl vstd::std_specs::convert::TryFromSpecImpl<&str> for PitchRoot {
    open spec fn obeys_try_from_spec() -> bool {
        true
    }

    open spec fn try_from_spec(v: &str) -> Result<PitchRoot, &'static str> {
        root_parse(v@)
    }
}

impl StepsFromC for PitchRoot {
    fn steps_from_c(&self) -> (r: Steps)
        ensures
            r.0 == root_step(*self),
    {
        let value: i64 = match *self {
            Self::C => 0,
            Self::D => 1,
            Self::E => 2,
            Self::F => 3,
            Self::G => 4,
            Self::A => 5,
            Self::B => 6,
        };
        Steps(value)
    }
}

impl SemitonesFromC for PitchRoot {
    open spec fn semitones_from_c_req(&self) -> bool {
        true
    }

    fn semitones_from_c(&self) -> (r: Semitones)
        ensures
            r.0 == root_semi(*self),
    {
        let value: i64 = match *self {
            Self::C => 0,
            Self::D => 2,
            Self::E => 4,
            Self::F => 5,
            Self::G => 7,
            Self::A => 9,
            Self::B => 11,
        };
        Semitones(value)
    }
}

impl core::convert::From<Steps> for PitchRoot {
    /// Creates a root pitch from the number of steps from C, wrapping around
    /// if the steps are less than 0 or more than 6.
    fn from(steps_from_c: Steps) -> PitchRoot {
        let k = mod_euclid(steps_from_c.0, 7);
        if k == 0 {
            Self::C
        } else if k == 1 {
            Self::D
        } else if k == 2 {
            Self::E
        } else if k == 3 {
            Self::F
        } else if k == 4 {
            Self::G
        } else if k == 5 {
            Self::A
        } else {
            Self::B
        }
    }
}

impl vstd::std_specs::convert::FromSpecImpl<Steps> for PitchRoot {
    open spec fn obeys_from_spec() -> bool {
        true
    }

    open spec fn from_spec(v: Steps) -> PitchRoot {
        root_from_steps(v.0 as int)
    }
}

impl TransposedBy<Steps> for PitchRoot {
    open spec fn transposed_by_req(&self, delta: Steps) -> bool {
        fits_scalar(root_step(*self) + delta.0)
    }

    /// Transposes the root pitch by a number of steps, wrapping back to C if
    /// the result passes B.
    fn transposed_by(&self, delta: Steps) -> (r: Self)
        ensures
            r == root_from_steps(root_step(*self) + delta.0),
    {
        Self::from(self.steps_from_c() + delta)
    }
}

impl TransposedBy<IntervalRoot> for PitchRoot {
    open spec fn transposed_by_req(&self, delta: IntervalRoot) -> bool {
        true
    }

    /// Transposes the root pitch by an interval root, wrapping back to C if
    /// the result passes B.
    fn transposed_by(&self, delta: IntervalRoot) -> (r: Self)
        ensures
            r == root_from_steps(root_step(*self) + iroot_step(delta)),
    {
        self.transposed_by(delta.in_steps())
    }
}

impl core::cmp::PartialOrd for PitchRoot {
    fn partial_cmp(&self, other: &PitchRoot) -> Option<core::cmp::Ordering> {
        let a = self.steps_from_c();
        let b = other.steps_from_c();
        if a.0 < b.0 {
            Some(core::cmp::Ordering::Less)
        } else if a.0 == b.0 {
            Some(core::cmp::Ordering::Equal)
        } else {
            Some(core::cmp::Ordering::Greater)
        }
    }
}

impl vstd::std_specs::cmp::PartialOrdSpecImpl for PitchRoot {
    open spec fn obeys_partial_cmp_spec() -> bool {
        true
    }

    open spec fn partial_cmp_spec(&self, other: &PitchRoot) -> Option<core::cmp::Ordering> {
        if root_step(*self) < root_step(*other) {
            Some(core::cmp::Ordering::Less)
        } else if root_step(*self) == root_step(*other) {
            Some(core::cmp::Ordering::Equal)
        } else {
            Some(core::cmp::Ordering::Greater)
        }
    }
}

impl TotalOrder for PitchRoot {
    open spec fn le_spec(&self, other: &Self) -> bool {
        root_step(*self) <= root_step(*other)
    }

    proof fn lemma_le_total(&self, other: &Self) {
    }

    proof fn lemma_le_antisymmetric(&self, other: &Self) {
    }

    proof fn lemma_le_transitive(&self, mid: &Self, other: &Self) {
    }

    fn le(&self, other: &Self) -> (r: bool) {
        let a = self.steps_from_c();
        let b = other.steps_from_c();
        a.0 <= b.0
    }
}

} // verus!
