use crate::arith::{div_trunc_wide, fits_scalar, mod_trunc_wide, tdiv, tmod};
use crate::interval::{
    ic_add_req, ic_add_spec, ic_le, ic_lt, ic_quality, ic_sub_req, ic_sub_spec, iroot_from_steps,
    iroot_of_step, iroot_semi, iroot_step, GetIntervalQuality, IntervalClass, IntervalQuality,
    IntervalRoot, IsPerfect,
};
use crate::pitch::{pitch_semis, pitch_steps, PitchDyad};
use crate::vertical::{
    InOctaves, InSemitones, InSteps, Octaves, Semitones, SemitonesFromC, Steps, StepsFromC,
};
use crate::Scalar;
use vstd::arithmetic::div_mod::lemma_fundamental_div_mod_converse_div;
use vstd::prelude::*;

verus! {

/// An interval: a simple interval class compounded by a number of octaves.
/// Its total size is the class size plus the octave contribution, seven
/// steps and twelve semitones per octave.
#[derive(Copy, Clone, PartialEq, Eq, Structural, Hash, Debug)]
pub struct Interval {
    pub octaves: Octaves,
    pub class: IntervalClass,
}

/// The total diatonic size of an interval in steps.
pub open spec fn ivl_steps(v: Interval) -> int {
    7 * v.octaves.0 + iroot_step(v.class.root)
}

/// The total chromatic size of an interval in semitones.
pub open spec fn ivl_semis(v: Interval) -> int {
    12 * v.octaves.0 + v.class.semitones.0
}

/// The ordering of intervals: by octave span first, then by class.
pub open spec fn ivl_le(a: Interval, b: Interval) -> bool {
    a.octaves.0 < b.octaves.0 || (a.octaves == b.octaves && ic_le(a.class, b.class))
}

/// An interval whose octave count is the one its own step size derives:
/// true of every interval built with a non-negative octave count.
pub open spec fn ivl_canonical(v: Interval) -> bool {
    v.octaves.0 >= 0 || v.class.root == IntervalRoot::Unison
}

/// Adding intervals: the octave count is derived anew from the summed step
/// sizes, since adding the classes may itself overflow an octave.
pub open spec fn ivl_add_spec(a: Interval, b: Interval) -> Interval {
    Interval {
        octaves: Octaves(tdiv(ivl_steps(a) + ivl_steps(b), 7) as Scalar),
        class: ic_add_spec(a.class, b.class),
    }
}

/// When interval addition stays within the scalar range.
pub open spec fn ivl_add_req(a: Interval, b: Interval) -> bool {
    &&& fits_scalar(ivl_steps(a))
    &&& fits_scalar(ivl_steps(b))
    &&& fits_scalar(ivl_steps(a) + ivl_steps(b))
    &&& ic_add_req(a.class, b.class)
}

/// Subtracting intervals, defined when the left operand is the larger: the
/// octave count is derived from the step difference and the classes
/// subtract with their own wrapping rule.
pub open spec fn ivl_sub_spec(a: Interval, b: Interval) -> Interval {
    Interval {
        octaves: Octaves(tdiv(ivl_steps(a) - ivl_steps(b), 7) as Scalar),
        class: ic_sub_spec(a.class, b.class),
    }
}

/// When interval subtraction is defined: a negative interval is not
/// representable, so the right operand must not order above the left.
pub open spec fn ivl_sub_req(a: Interval, b: Interval) -> bool {
    &&& ivl_le(b, a)
    &&& fits_scalar(ivl_steps(a))
    &&& fits_scalar(ivl_steps(b))
    &&& fits_scalar(ivl_steps(a) - ivl_steps(b))
    &&& ic_sub_req(a.class, b.class)
}

impl InSteps for Interval {
    open spec fn in_steps_req(&self) -> bool {
        fits_scalar(ivl_steps(*self))
    }

    fn in_steps(&self) -> (r: Steps)
        ensures
            r.0 == ivl_steps(*self),
    {
        // Computed in a wider type so only the result needs to fit.
        let wide: i128 = 7 * (self.octaves.0 as i128) + (self.class.in_steps().0 as i128);
        Steps(wide as i64)
    }
}

impl InSemitones for Interval {
    open spec fn in_semitones_req(&self) -> bool {
        fits_scalar(ivl_semis(*self))
    }

    fn in_semitones(&self) -> (r: Semitones)
        ensures
            r.0 == ivl_semis(*self),
    {
        let wide: i128 = 12 * (self.octaves.0 as i128) + (self.class.semitones.0 as i128);
        Semitones(wide as i64)
    }
}

impl IsPerfect for Interval {
    fn is_perfect(&self) -> (r: bool)
        ensures
            r == (iroot_perfect_class(self.class)),
    {
        self.class.is_perfect()
    }
}

impl GetIntervalQuality for Interval {
    open spec fn get_interval_quality_req(&self) -> bool {
        fits_scalar(self.class.semitones.0 - iroot_semi(self.class.root))
    }

    fn get_interval_quality(&self) -> (r: IntervalQuality)
        ensures
            r == ic_quality(self.class),
    {
        self.class.get_interval_quality()
    }
}

/// Whether an interval class spans exactly its root's perfect size.
pub open spec fn iroot_perfect_class(c: IntervalClass) -> bool {
    crate::interval::iroot_perfect(c.root) && c.semitones.0 == iroot_semi(c.root)
}

impl core::ops::Add for Interval {
    type Output = Interval;

    fn add(self, rhs: Interval) -> Interval {
        Interval {
            octaves: (self.in_steps() + rhs.in_steps()).in_octaves(),
            class: self.class + rhs.class,
        }
    }
}

impl vstd::std_specs::ops::AddSpecImpl for Interval {
    open spec fn obeys_add_spec() -> bool {
        true
    }

    open spec fn add_req(self, rhs: Interval) -> bool {
        ivl_add_req(self, rhs)
    }

    open spec fn add_spec(self, rhs: Interval) -> Interval {
        ivl_add_spec(self, rhs)
    }
}

impl core::ops::Sub for Interval {
    type Output = Interval;

    fn sub(self, rhs: Interval) -> Interval {
        Interval {
            octaves: (self.in_steps() - rhs.in_steps()).in_octaves(),
            class: self.class - rhs.class,
        }
    }
}

impl vstd::std_specs::ops::SubSpecImpl for Interval {
    open spec fn obeys_sub_spec() -> bool {
        true
    }

    open spec fn sub_req(self, rhs: Interval) -> bool {
        ivl_sub_req(self, rhs)
    }

    open spec fn sub_spec(self, rhs: Interval) -> Interval {
        ivl_sub_spec(self, rhs)
    }
}

impl Interval {
    /// The text of the interval: its quality followed by its total size
    /// number, a major tenth reading "M10".
    pub fn to_string(&self) -> (s: String)
        requires
            fits_scalar(ivl_steps(*self)),
            fits_scalar(ivl_steps(*self) + 1),
            fits_scalar(self.class.semitones.0 - iroot_semi(self.class.root)),
        ensures
            s@ == crate::interval::quality_text(ic_quality(self.class)) + crate::text::dec_int(
                ivl_steps(*self) + 1,
            ),
    {
        let mut s = self.get_interval_quality().to_string();
        let number = crate::text::i64_to_string(self.in_steps().0 + 1);
        s.append(number.as_str());
        s
    }
}

impl core::convert::From<&PitchDyad> for Interval {
    /// The interval spanned by a dyad of pitches: the octave count from the
    /// step distance, the class root and semitones from the wrapped step and
    /// semitone distances, counted upward from the low pitch. An octave
    /// count beyond the scalar range is truncated.
    fn from(dyad: &PitchDyad) -> Interval {
        // Distances computed in a wider type; they cannot overflow there.
        let high_steps: i128 = 7 * (dyad.high.octave.octaves_from_c0.0 as i128) + (
        dyad.high.class.root.steps_from_c().0 as i128);
        let low_steps: i128 = 7 * (dyad.low.octave.octaves_from_c0.0 as i128) + (
        dyad.low.class.root.steps_from_c().0 as i128);
        let steps: i128 = high_steps - low_steps;
        let high_semis: i128 = 12 * (dyad.high.octave.octaves_from_c0.0 as i128) + (
        dyad.high.class.root.semitones_from_c().0 as i128) + (dyad.high.class.accidental.offset.0
            as i128);
        let low_semis: i128 = 12 * (dyad.low.octave.octaves_from_c0.0 as i128) + (
        dyad.low.class.root.semitones_from_c().0 as i128) + (dyad.low.class.accidental.offset.0
            as i128);
        let semis: i128 = high_semis - low_semis;
        let octaves = Octaves(#[verifier::truncate] (div_trunc_wide(steps, 7) as i64));
        let root = IntervalRoot::from(Steps(mod_trunc_wide(steps, 7) as i64));
        let semitones = Semitones(mod_trunc_wide(semis, 12) as i64);
        Interval { octaves, class: IntervalClass { root, semitones } }
    }
}

/// The interval a pitch dyad spans: the octave count from the step
/// distance, the class from the wrapped step and semitone distances, all
/// counted upward from the low pitch.
pub open spec fn interval_of_dyad(d: PitchDyad) -> Interval {
    let steps = pitch_steps(d.high) - pitch_steps(d.low);
    let semis = pitch_semis(d.high) - pitch_semis(d.low);
    Interval {
        octaves: Octaves(tdiv(steps, 7) as Scalar),
        class: IntervalClass {
            root: iroot_from_steps(tmod(steps, 7)),
            semitones: Semitones(tmod(semis, 12) as Scalar),
        },
    }
}

impl vstd::std_specs::convert::FromSpecImpl<&PitchDyad> for Interval {
    open spec fn obeys_from_spec() -> bool {
        true
    }

    open spec fn from_spec(v: &PitchDyad) -> Interval {
        interval_of_dyad(*v)
    }
}

/// The interval a well-formed dyad spans is canonical: its octave count is
/// not negative and its total step size is exactly the dyad's diatonic
/// distance.
pub proof fn lemma_interval_of_dyad_steps(d: PitchDyad)
    requires
        crate::harmony::dyad_wf(d),
        fits_scalar(pitch_steps(d.high) - pitch_steps(d.low)),
    ensures
        interval_of_dyad(d).octaves.0 >= 0,
        ivl_canonical(interval_of_dyad(d)),
        ivl_steps(interval_of_dyad(d)) == pitch_steps(d.high) - pitch_steps(d.low),
{
    let delta = pitch_steps(d.high) - pitch_steps(d.low);
    // An ordered dyad never spans a negative step distance.
    assert(delta >= 0);
    vstd::arithmetic::div_mod::lemma_div_pos_is_pos(delta, 7);
    vstd::arithmetic::div_mod::lemma_div_nonincreasing(delta, 7);
    vstd::arithmetic::div_mod::lemma_mod_bound(delta, 7);
    vstd::arithmetic::div_mod::lemma_fundamental_div_mod(delta, 7);
    assert(iroot_step(iroot_of_step(delta % 7)) == delta % 7);
}

impl core::cmp::PartialOrd for Interval {
    fn partial_cmp(&self, other: &Interval) -> Option<core::cmp::Ordering> {
        if self.octaves.0 < other.octaves.0 {
            Some(core::cmp::Ordering::Less)
        } else if self.octaves.0 > other.octaves.0 {
            Some(core::cmp::Ordering::Greater)
        } else {
            self.class.partial_cmp(&other.class)
        }
    }
}

impl vstd::std_specs::cmp::PartialOrdSpecImpl for Interval {
    open spec fn obeys_partial_cmp_spec() -> bool {
        true
    }

    open spec fn partial_cmp_spec(&self, other: &Interval) -> Option<core::cmp::Ordering> {
        if ivl_le(*self, *other) && *self != *other {
            Some(core::cmp::Ordering::Less)
        } else if *self == *other {
            Some(core::cmp::Ordering::Equal)
        } else {
            Some(core::cmp::Ordering::Greater)
        }
    }
}

/// Quotient of a multiple of seven plus a remainder below seven.
proof fn lemma_div7_decompose(k: int, r: int)
    requires
        0 <= r < 7,
    ensures
        (7 * k + r) / 7 == k,
{
    lemma_fundamental_div_mod_converse_div(7 * k + r, 7, k, r);
}

/// A value already below seven is its own remainder.
proof fn lemma_mod7_small(r: int)
    requires
        0 <= r < 7,
    ensures
        r % 7 == r,
{
    vstd::arithmetic::div_mod::lemma_fundamental_div_mod_converse_mod(r, 7, 0, r);
}

/// Adding intervals adds their total sizes, step for step and semitone for
/// semitone, whenever the summed step size is not negative.
pub proof fn lemma_interval_add_sizes(a: Interval, b: Interval)
    requires
        ivl_add_req(a, b),
        ivl_steps(a) + ivl_steps(b) >= 0,
    ensures
        ivl_steps(ivl_add_spec(a, b)) == ivl_steps(a) + ivl_steps(b),
        ivl_semis(ivl_add_spec(a, b)) == ivl_semis(a) + ivl_semis(b),
{
    let sa = iroot_step(a.class.root);
    let sb = iroot_step(b.class.root);
    let total = ivl_steps(a) + ivl_steps(b);
    assert(total == 7 * (a.octaves.0 + b.octaves.0) + (sa + sb));
    if sa + sb < 7 {
        lemma_div7_decompose(a.octaves.0 + b.octaves.0, sa + sb);
        lemma_div7_decompose(0, sa + sb);
    } else {
        lemma_div7_decompose(a.octaves.0 + b.octaves.0 + 1, sa + sb - 7);
        lemma_div7_decompose(1, sa + sb - 7);
    }
    assert(total >= 0 ==> tdiv(total, 7) == total / 7);
}

/// Subtracting an interval and adding it back returns the original, for any
/// two intervals in order whose arithmetic stays in range. The original must
/// carry its canonical octave count: with a negative octave count and a
/// non-Unison root the derived octave count differs from the stored one.
pub proof fn lemma_interval_sub_add_round_trip(x: Interval, y: Interval)
    requires
        ivl_sub_req(x, y),
        ivl_add_req(ivl_sub_spec(x, y), y),
        ivl_canonical(x),
    ensures
        ivl_add_spec(ivl_sub_spec(x, y), y) == x,
{
    let ox = x.octaves.0 as int;
    let oy = y.octaves.0 as int;
    let rx = iroot_step(x.class.root);
    let ry = iroot_step(y.class.root);
    let mx = x.class.semitones.0 as int;
    let my = y.class.semitones.0 as int;
    let sx = ivl_steps(x);
    let sy = ivl_steps(y);
    let d = ivl_sub_spec(x, y);

    // The stored octave count of x is the one its step size derives.
    assert(tdiv(sx, 7) == ox) by {
        if ox >= 0 {
            lemma_div7_decompose(ox, rx);
        } else {
            assert(rx == 0);
            lemma_div7_decompose(-ox, 0);
        }
    };

    if ic_lt(x.class, y.class) {
        // The class difference wraps, borrowing one octave.
        assert(oy < ox);
        if rx == ry {
            assert(d.class.root == IntervalRoot::Unison);
            assert(d.class.semitones.0 == mx - my);
            lemma_div7_decompose(ox - oy, 0);
            assert(d.octaves.0 == ox - oy);
            lemma_div7_decompose(0, ry);
            lemma_div7_decompose(ox, rx);
        } else {
            assert(rx < ry);
            assert(iroot_step(d.class.root) == 7 - (ry - rx)) by {
                lemma_mod7_small(ry - rx);
                lemma_mod7_small(7 - (ry - rx));
            };
            assert(d.class.semitones.0 == 12 - (my - mx));
            assert(sx - sy == 7 * (ox - oy - 1) + (7 - (ry - rx)));
            lemma_div7_decompose(ox - oy - 1, 7 - (ry - rx));
            assert(d.octaves.0 == ox - oy - 1);
            // Adding the classes back carries the borrowed octave.
            assert((7 - (ry - rx)) + ry == 7 + rx);
            lemma_div7_decompose(1, rx);
            assert((7 + rx) / 7 == 1 && (7 + rx) % 7 == rx) by {
                lemma_div7_decompose(1, rx);
                assert(7 + rx == 7 * 1 + rx);
                vstd::arithmetic::div_mod::lemma_fundamental_div_mod_converse_mod(7 + rx, 7, 1, rx);
            };
        }
    } else {
        // The class difference is taken directly.
        assert(ry <= rx);
        assert(iroot_step(d.class.root) == rx - ry) by {
            lemma_mod7_small(rx - ry);
        };
        assert(d.class.semitones.0 == mx - my);
        assert(sx - sy == 7 * (ox - oy) + (rx - ry));
        lemma_div7_decompose(ox - oy, rx - ry);
        assert(d.octaves.0 == ox - oy);
        assert((rx - ry) + ry == rx);
        lemma_div7_decompose(0, rx);
    }
    assert(ivl_steps(d) + ivl_steps(y) == sx);
    assert(ivl_add_spec(d, y).octaves.0 == ox);
    assert(ivl_add_spec(d, y).class.root == x.class.root) by {
        assert(iroot_step(ivl_add_spec(d, y).class.root) == rx);
    };
    assert(ivl_add_spec(d, y).class.semitones.0 == mx);
}

} // verus!
