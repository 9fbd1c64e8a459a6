use crate::arith::fits_scalar;
use crate::interval::{iroot_step, IntervalClass};
use crate::order::TotalOrder;
use crate::pitch::{
    accidental_parse, accidental_text, root_char, root_from_steps, root_of_char, root_semi,
    root_step, Accidental, PitchRoot,
};
use crate::vertical::{Semitones, SemitonesFromC, Steps, StepsFromC, TransposedBy};
use crate::Scalar;
use vstd::prelude::*;

verus! {

/// A pitch class: a pitch root together with an accidental, naming the same
/// note in every octave.
#[derive(Copy, Clone, PartialEq, Eq, Structural, Hash, Debug)]
pub struct PitchClass {
    pub root: PitchRoot,
    pub accidental: Accidental,
}

/// The chromatic position of a pitch class counted up from C natural: the
/// root's natural semitone value shifted by the accidental.
pub open spec fn pc_semis(pc: PitchClass) -> int {
    root_semi(pc.root) + pc.accidental.offset.0
}

/// The ordering of pitch classes: by root first, by accidental offset within
/// one root. E sharp orders below F flat.
pub open spec fn pc_le(a: PitchClass, b: PitchClass) -> bool {
    root_step(a.root) < root_step(b.root) || (a.root == b.root
        && a.accidental.offset.0 <= b.accidental.offset.0)
}

/// Strict version of [`pc_le`].
pub open spec fn pc_lt(a: PitchClass, b: PitchClass) -> bool {
    pc_le(a, b) && a != b
}

/// The root reached by transposing a pitch class by an interval class.
pub open spec fn pc_transpose_root(pc: PitchClass, ic: IntervalClass) -> PitchRoot {
    root_from_steps(root_step(pc.root) + iroot_step(ic.root))
}

/// The accidental offset after transposing a pitch class by an interval
/// class: the old offset moves by the interval's semitones less the natural
/// distance between the old root and the new, counted upward.
pub open spec fn pc_transpose_offset(pc: PitchClass, ic: IntervalClass) -> int {
    let new_root = pc_transpose_root(pc, ic);
    let between = root_semi(new_root) - root_semi(pc.root) + if root_step(new_root) < root_step(
        pc.root,
    ) {
        12int
    } else {
        0int
    };
    pc.accidental.offset.0 + ic.semitones.0 - between
}

/// The pitch class reached by transposing by an interval class.
pub open spec fn pc_transpose_spec(pc: PitchClass, ic: IntervalClass) -> PitchClass {
    PitchClass {
        root: pc_transpose_root(pc, ic),
        accidental: Accidental { offset: Semitones(pc_transpose_offset(pc, ic) as Scalar) },
    }
}

/// When transposition by an interval class stays within the scalar range.
pub open spec fn pc_transpose_req(pc: PitchClass, ic: IntervalClass) -> bool {
    fits_scalar(pc.accidental.offset.0 + ic.semitones.0) && fits_scalar(
        pc_transpose_offset(pc, ic),
    )
}

/// The text of a pitch class: its root letter followed by its accidental.
pub open spec fn pc_text(pc: PitchClass) -> Seq<char> {
    seq![root_char(pc.root)] + accidental_text(pc.accidental.offset.0 as int)
}

/// What parsing a pitch class gives: a root letter followed by a run of
/// accidental glyphs.
pub open spec fn pc_parse(s: Seq<char>) -> Result<PitchClass, &'static str> {
    if s.len() < 2 {
        Err("String is too short to be a Pitch Class")
    } else if root_of_char(s[0]) is None {
        Err("Could not recognise pitch root")
    } else {
        match accidental_parse(s.subrange(1, s.len() as int)) {
            Ok(accidental) => Ok(PitchClass { root: root_of_char(s[0]).unwrap(), accidental }),
            Err(e) => Err(e),
        }
    }
}

impl PitchClass {
    /// The text of the class: root letter, then accidental glyphs.
    pub fn to_string(&self) -> (s: String)
        ensures
            s@ == pc_text(*self),
    {
        let mut s = self.root.to_string();
        let accidental = self.accidental.to_string();
        s.append(accidental.as_str());
        s
    }
}

impl core::convert::TryFrom<&str> for PitchClass {
    type Error = &'static str;

    /// Parses a root letter followed by accidental glyphs.
    fn try_from(value: &str) -> Result<PitchClass, &'static str> {
        let n = value.unicode_len();
        if n < 2 {
            return Err("String is too short to be a Pitch Class");
        }
        let c = value.get_char(0);
        let root = if c == 'C' {
            PitchRoot::C
        } else if c == 'D' {
            PitchRoot::D
        } else if c == 'E' {
            PitchRoot::E
        } else if c == 'F' {
            PitchRoot::F
        } else if c == 'G' {
            PitchRoot::G
        } else if c == 'A' {
            PitchRoot::A
        } else if c == 'B' {
            PitchRoot::B
        } else {
            return Err("Could not recognise pitch root");
        };
        let rest = value.substring_char(1, n);
        match Accidental::try_from(rest) {
            Ok(accidental) => Ok(PitchClass { root, accidental }),
            Err(e) => Err(e),
        }
    }
}

impl vstd::std_specs::convert::TryFromSpecImpl<&str> for PitchClass {
    open spec fn obeys_try_from_spec() -> bool {
        true
    }

    open spec fn try_from_spec(v: &str) -> Result<PitchClass, &'static str> {
        pc_parse(v@)
    }
}

impl StepsFromC for PitchClass {
    fn steps_from_c(&self) -> (r: Steps)
        ensures
            r.0 == root_step(self.root),
    {
        self.root.steps_from_c()
    }
}

impl SemitonesFromC for PitchClass {
    open spec fn semitones_from_c_req(&self) -> bool {
        fits_scalar(pc_semis(*self))
    }

    fn semitones_from_c(&self) -> (r: Semitones)
        ensures
            r.0 == pc_semis(*self),
    {
        self.root.semitones_from_c() + self.accidental.offset
    }
}

impl TransposedBy<Steps> for PitchClass {
    open spec fn transposed_by_req(&self, delta: Steps) -> bool {
        fits_scalar(root_step(self.root) + delta.0)
    }

    /// Moves the root by a raw step count, keeping the accidental.
    fn transposed_by(&self, delta: Steps) -> (r: Self)
        ensures
            r.root == crate::pitch::root_from_steps(root_step(self.root) + delta.0),
            r.accidental == self.accidental,
    {
        PitchClass { root: self.root.transposed_by(delta), accidental: self.accidental }
    }
}

impl TransposedBy<Semitones> for PitchClass {
    open spec fn transposed_by_req(&self, delta: Semitones) -> bool {
        fits_scalar(self.accidental.offset.0 + delta.0)
    }

    /// Moves the accidental by a raw semitone count, keeping the root.
    fn transposed_by(&self, delta: Semitones) -> (r: Self)
        ensures
            r.root == self.root,
            r.accidental.offset.0 == self.accidental.offset.0 + delta.0,
    {
        PitchClass { root: self.root, accidental: self.accidental.transposed_by(delta) }
    }
}

impl TransposedBy<&IntervalClass> for PitchClass {
    open spec fn transposed_by_req(&self, delta: &IntervalClass) -> bool {
        pc_transpose_req(*self, *delta)
    }

    /// Moves the root by the interval's root and shifts the accidental so
    /// that the whole class moves by exactly the interval's semitones, one
    /// octave's worth removed when the root wraps past B.
    fn transposed_by(&self, delta: &IntervalClass) -> (r: Self)
        ensures
            r == pc_transpose_spec(*self, *delta),
            pc_semis(r) == pc_semis(*self) + delta.semitones.0 - 12 * (if root_step(self.root)
                + iroot_step(delta.root) >= 7 {
                1int
            } else {
                0int
            }),
    {
        let new_root = self.root.transposed_by(delta.root);
        let mut semitones_between_roots = new_root.semitones_from_c()
            - self.root.semitones_from_c();
        // If the root has wrapped around, add another 12 semitones to get an
        // accurate accidental shift.
        if new_root < self.root {
            semitones_between_roots = semitones_between_roots + Semitones(12);
        }
        let new_accidental = Accidental {
            offset: self.accidental.offset + delta.semitones - semitones_between_roots,
        };
        PitchClass { root: new_root, accidental: new_accidental }
    }
}

impl core::cmp::PartialOrd for PitchClass {
    fn partial_cmp(&self, other: &PitchClass) -> Option<core::cmp::Ordering> {
        let a = self.root.steps_from_c();
        let b = other.root.steps_from_c();
        if a.0 < b.0 {
            Some(core::cmp::Ordering::Less)
        } else if a.0 > b.0 {
            Some(core::cmp::Ordering::Greater)
        } else if self.accidental.offset.0 < other.accidental.offset.0 {
            Some(core::cmp::Ordering::Less)
        } else if self.accidental.offset.0 == other.accidental.offset.0 {
            Some(core::cmp::Ordering::Equal)
        } else {
            Some(core::cmp::Ordering::Greater)
        }
    }
}

impl vstd::std_specs::cmp::PartialOrdSpecImpl for PitchClass {
    open spec fn obeys_partial_cmp_spec() -> bool {
        true
    }

    open spec fn partial_cmp_spec(&self, other: &PitchClass) -> Option<core::cmp::Ordering> {
        if pc_le(*self, *other) && !pc_le(*other, *self) {
            Some(core::cmp::Ordering::Less)
        } else if pc_le(*self, *other) && pc_le(*other, *self) {
            Some(core::cmp::Ordering::Equal)
        } else {
            Some(core::cmp::Ordering::Greater)
        }
    }
}

impl TotalOrder for PitchClass {
    open spec fn le_spec(&self, other: &Self) -> bool {
        pc_le(*self, *other)
    }

    proof fn lemma_le_total(&self, other: &Self) {
    }

    proof fn lemma_le_antisymmetric(&self, other: &Self) {
    }

    proof fn lemma_le_transitive(&self, mid: &Self, other: &Self) {
    }

    #[verifier::spinoff_prover]
    fn le(&self, other: &Self) -> (r: bool) {
        let a = self.root.steps_from_c();
        let b = other.root.steps_from_c();
        let r = a.0 < b.0 || (a.0 == b.0 && self.accidental.offset.0 <= other.accidental.offset.0);
        proof {
            // Names both sides of the postcondition for the prover.
            assert(r == pc_le(*self, *other));
            assert(self.le_spec(other) == pc_le(*self, *other));
        }
        r
    }
}

} // verus!
