use crate::arith::fits_scalar;
use crate::harmony::dyad_from_spec;
use crate::interval::{
    iroot_from_steps, iroot_of_step, iroot_perfect, iroot_semi, iroot_step, quality_text,
    GetIntervalQuality, IntervalQuality, IntervalRoot, Inverted, IsPerfect,
};
use crate::pitch::{pc_semis, root_step, PitchClassDyad, PitchRootDyad};
use crate::vertical::{InOctaves, InSemitones, InSteps, Semitones, SemitonesFromC, Steps};
use crate::Scalar;
use vstd::prelude::*;

verus! {

/// A simple interval with a quality: an interval root together with the
/// absolute chromatic distance it spans. The semitone count is the literal
/// distance for that root, not an offset; a major third holds 4.
#[derive(Copy, Clone, PartialEq, Eq, Structural, Hash, Debug)]
pub struct IntervalClass {
    pub root: IntervalRoot,
    pub semitones: Semitones,
}

/// The ordering of interval classes: by root first, by semitone span within
/// one root.
pub open spec fn ic_le(a: IntervalClass, b: IntervalClass) -> bool {
    iroot_step(a.root) < iroot_step(b.root) || (a.root == b.root && a.semitones.0 <= b.semitones.0)
}

/// Strict version of [`ic_le`].
pub open spec fn ic_lt(a: IntervalClass, b: IntervalClass) -> bool {
    ic_le(a, b) && a != b
}

/// The quality of an interval class: its semitone span against the root's
/// natural span, on the root's spectrum.
pub open spec fn ic_quality(ic: IntervalClass) -> IntervalQuality {
    let offset = Semitones((ic.semitones.0 - iroot_semi(ic.root)) as Scalar);
    if iroot_perfect(ic.root) {
        IntervalQuality::Perfectable(offset)
    } else {
        IntervalQuality::Imperfect(offset)
    }
}

/// Adding two interval classes: roots add on the seven-step cycle, semitone
/// spans add, and one octave's worth of semitones leaves with the carry.
pub open spec fn ic_add_spec(a: IntervalClass, b: IntervalClass) -> IntervalClass {
    let s = iroot_step(a.root) + iroot_step(b.root);
    IntervalClass {
        root: iroot_of_step(s % 7),
        semitones: Semitones((a.semitones.0 + b.semitones.0 - 12 * (s / 7)) as Scalar),
    }
}

/// When the added semitone spans stay within the scalar range.
pub open spec fn ic_add_req(a: IntervalClass, b: IntervalClass) -> bool {
    let s = iroot_step(a.root) + iroot_step(b.root);
    fits_scalar(a.semitones.0 + b.semitones.0) && fits_scalar(
        a.semitones.0 + b.semitones.0 - 12 * (s / 7),
    )
}

/// The difference of two interval classes taken low-to-high: roots subtract
/// on the seven-step cycle, semitone spans subtract literally.
pub open spec fn ic_sub_pos_spec(a: IntervalClass, b: IntervalClass) -> IntervalClass {
    IntervalClass {
        root: iroot_from_steps(iroot_step(a.root) - iroot_step(b.root)),
        semitones: Semitones((a.semitones.0 - b.semitones.0) as Scalar),
    }
}

/// The inversion of an interval class: a Unison keeps its root and negates
/// its span; any other class takes the complementary root and the semitones
/// that complete the octave.
pub open spec fn ic_inverted_spec(c: IntervalClass) -> IntervalClass {
    if c.root == IntervalRoot::Unison {
        IntervalClass { root: IntervalRoot::Unison, semitones: Semitones((-c.semitones.0) as Scalar) }
    } else {
        IntervalClass {
            root: iroot_from_steps(7 - iroot_step(c.root)),
            semitones: Semitones((12 - c.semitones.0) as Scalar),
        }
    }
}

/// When the inverted semitone span stays within the scalar range.
pub open spec fn ic_inverted_req(c: IntervalClass) -> bool {
    if c.root == IntervalRoot::Unison {
        fits_scalar(-c.semitones.0)
    } else {
        fits_scalar(12 - c.semitones.0)
    }
}

/// Subtracting interval classes: taken low-to-high when the left operand is
/// the larger, and as the inverted reverse difference otherwise.
pub open spec fn ic_sub_spec(a: IntervalClass, b: IntervalClass) -> IntervalClass {
    if ic_lt(a, b) {
        ic_inverted_spec(ic_sub_pos_spec(b, a))
    } else {
        ic_sub_pos_spec(a, b)
    }
}

/// When the subtracted semitone spans stay within the scalar range.
pub open spec fn ic_sub_req(a: IntervalClass, b: IntervalClass) -> bool {
    if ic_lt(a, b) {
        fits_scalar(b.semitones.0 - a.semitones.0) && ic_inverted_req(ic_sub_pos_spec(b, a))
    } else {
        fits_scalar(a.semitones.0 - b.semitones.0)
    }
}

/// Inverting twice gives the class back.
pub proof fn lemma_ic_inverted_involutive(c: IntervalClass)
    requires
        ic_inverted_req(c),
    ensures
        ic_inverted_spec(ic_inverted_spec(c)) == c,
{
}

impl InSteps for IntervalClass {
    open spec fn in_steps_req(&self) -> bool {
        true
    }

    fn in_steps(&self) -> (r: Steps)
        ensures
            r.0 == iroot_step(self.root),
    {
        self.root.in_steps()
    }
}

impl InSemitones for IntervalClass {
    open spec fn in_semitones_req(&self) -> bool {
        true
    }

    fn in_semitones(&self) -> (r: Semitones)
        ensures
            r.0 == self.semitones.0,
    {
        self.semitones
    }
}

impl IsPerfect for IntervalClass {
    fn is_perfect(&self) -> (r: bool)
        ensures
            r == (iroot_perfect(self.root) && self.semitones.0 == iroot_semi(self.root)),
    {
        self.root.is_perfect() && self.semitones == self.root.in_semitones()
    }
}

impl GetIntervalQuality for IntervalClass {
    open spec fn get_interval_quality_req(&self) -> bool {
        fits_scalar(self.semitones.0 - iroot_semi(self.root))
    }

    fn get_interval_quality(&self) -> (r: IntervalQuality)
        ensures
            r == ic_quality(*self),
    {
        let offset = self.semitones - self.root.in_semitones();
        match self.root.is_perfect() {
            true => IntervalQuality::Perfectable(offset),
            false => IntervalQuality::Imperfect(offset),
        }
    }
}

impl core::ops::Add for IntervalClass {
    type Output = IntervalClass;

    fn add(self, rhs: IntervalClass) -> IntervalClass {
        let octaves = (self.in_steps() + rhs.in_steps()).in_octaves();
        IntervalClass {
            root: self.root + rhs.root,
            semitones: self.semitones + rhs.semitones - octaves.in_semitones(),
        }
    }
}

impl vstd::std_specs::ops::AddSpecImpl for IntervalClass {
    open spec fn obeys_add_spec() -> bool {
        true
    }

    open spec fn add_req(self, rhs: IntervalClass) -> bool {
        ic_add_req(self, rhs)
    }

    open spec fn add_spec(self, rhs: IntervalClass) -> IntervalClass {
        ic_add_spec(self, rhs)
    }
}

impl IntervalClass {
    /// The difference taken low-to-high, valid when `rhs` orders at or below
    /// `self`.
    fn sub_pos(self, rhs: IntervalClass) -> (r: IntervalClass)
        requires
            fits_scalar(self.semitones.0 - rhs.semitones.0),
        ensures
            r == ic_sub_pos_spec(self, rhs),
    {
        IntervalClass { root: self.root - rhs.root, semitones: self.semitones - rhs.semitones }
    }
}

impl core::ops::Sub for IntervalClass {
    type Output = IntervalClass;

    fn sub(self, rhs: IntervalClass) -> IntervalClass {
        if self < rhs {
            rhs.sub_pos(self).inverted()
        } else {
            self.sub_pos(rhs)
        }
    }
}

impl vstd::std_specs::ops::SubSpecImpl for IntervalClass {
    open spec fn obeys_sub_spec() -> bool {
        true
    }

    open spec fn sub_req(self, rhs: IntervalClass) -> bool {
        ic_sub_req(self, rhs)
    }

    open spec fn sub_spec(self, rhs: IntervalClass) -> IntervalClass {
        ic_sub_spec(self, rhs)
    }
}

impl Inverted for IntervalClass {
    open spec fn inverted_req(self) -> bool {
        ic_inverted_req(self)
    }

    fn inverted(self) -> (r: Self)
        ensures
            r == ic_inverted_spec(self),
    {
        if matches!(self.root, IntervalRoot::Unison) {
            return IntervalClass { root: IntervalRoot::Unison, semitones: Semitones(-self.semitones.0) };
        }
        IntervalClass {
            root: self.root.inverted(),
            semitones: Semitones(12) - self.semitones,
        }
    }
}

impl IntervalClass {
    /// The text of the class: its quality followed by its size number.
    pub fn to_string(&self) -> (s: String)
        requires
            fits_scalar(self.semitones.0 - iroot_semi(self.root)),
        ensures
            s@ == quality_text(ic_quality(*self)) + crate::text::dec_digits(
                (iroot_step(self.root) + 1) as nat,
            ),
    {
        let mut s = self.get_interval_quality().to_string();
        let number = self.root.to_string();
        s.append(number.as_str());
        s
    }
}

impl core::convert::From<&PitchClassDyad> for IntervalClass {
    /// The interval class spanned by a dyad of pitch classes: its root from
    /// the projected root dyad, its semitones from the chromatic distance
    /// counted upward from the low class. A semitone distance beyond the
    /// scalar range is truncated.
    fn from(dyad: &PitchClassDyad) -> IntervalClass {
        let root = IntervalRoot::from(&PitchRootDyad::from(dyad));
        // Computed in a wider type; the subtraction itself cannot overflow.
        let high_semis: i128 = (dyad.high.root.semitones_from_c().0 as i128) + (
        dyad.high.accidental.offset.0 as i128);
        let low_semis: i128 = (dyad.low.root.semitones_from_c().0 as i128) + (
        dyad.low.accidental.offset.0 as i128);
        let semitones = Semitones(#[verifier::truncate] ((high_semis - low_semis) as i64));
        IntervalClass { root, semitones }
    }
}

impl vstd::std_specs::convert::FromSpecImpl<&PitchClassDyad> for IntervalClass {
    open spec fn obeys_from_spec() -> bool {
        true
    }

    open spec fn from_spec(v: &PitchClassDyad) -> IntervalClass {
        let roots = dyad_from_spec(v.low.root, v.high.root);
        IntervalClass {
            root: iroot_from_steps(root_step(roots.high) - root_step(roots.low)),
            semitones: Semitones((pc_semis(v.high) - pc_semis(v.low)) as Scalar),
        }
    }
}

impl core::cmp::PartialOrd for IntervalClass {
    fn partial_cmp(&self, other: &IntervalClass) -> Option<core::cmp::Ordering> {
        let a = self.root.in_steps();
        let b = other.root.in_steps();
        if a.0 < b.0 {
            Some(core::cmp::Ordering::Less)
        } else if a.0 > b.0 {
            Some(core::cmp::Ordering::Greater)
        } else if self.semitones.0 < other.semitones.0 {
            Some(core::cmp::Ordering::Less)
        } else if self.semitones.0 == other.semitones.0 {
            Some(core::cmp::Ordering::Equal)
        } else {
            Some(core::cmp::Ordering::Greater)
        }
    }
}

impl vstd::std_specs::cmp::PartialOrdSpecImpl for IntervalClass {
    open spec fn obeys_partial_cmp_spec() -> bool {
        true
    }

    open spec fn partial_cmp_spec(&self, other: &IntervalClass) -> Option<core::cmp::Ordering> {
        if ic_lt(*self, *other) {
            Some(core::cmp::Ordering::Less)
        } else if *self == *other {
            Some(core::cmp::Ordering::Equal)
        } else {
            Some(core::cmp::Ordering::Greater)
        }
    }
}

} // verus!
