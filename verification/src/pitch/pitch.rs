use crate::arith::fits_scalar;
use crate::interval::{iroot_step, ivl_semis, ivl_steps, Interval};
use crate::order::TotalOrder;
use crate::pitch::{
    octave_parse, pc_le, pc_parse, pc_semis, pc_text, pc_transpose_req, pc_transpose_spec,
    root_step, Octave, PitchClass,
};
use crate::text::{dec_int, is_digit};
use crate::vertical::{
    Octaves, Semitones, SemitonesFromC, SemitonesFromC0, Steps, StepsFromC, StepsFromC0,
    TransposedBy,
};
use crate::Scalar;
use vstd::prelude::*;

verus! {

/// A single pitch: a pitch class placed in an octave.
#[derive(Copy, Clone, PartialEq, Eq, Structural, Hash, Debug)]
pub struct Pitch {
    pub octave: Octave,
    pub class: PitchClass,
}

/// The diatonic position of a pitch in steps up from C0.
pub open spec fn pitch_steps(p: Pitch) -> int {
    7 * p.octave.octaves_from_c0.0 + root_step(p.class.root)
}

/// The chromatic position of a pitch in semitones up from C0.
pub open spec fn pitch_semis(p: Pitch) -> int {
    12 * p.octave.octaves_from_c0.0 + pc_semis(p.class)
}

/// The ordering of pitches: by octave first, then by pitch class. B3 orders
/// below C4, and B sharp 3 below C flat 4.
pub open spec fn pitch_le(a: Pitch, b: Pitch) -> bool {
    a.octave.octaves_from_c0.0 < b.octave.octaves_from_c0.0 || (a.octave == b.octave && pc_le(
        a.class,
        b.class,
    ))
}

/// The text of a pitch: its class followed by its octave number.
pub open spec fn pitch_text(p: Pitch) -> Seq<char> {
    pc_text(p.class) + dec_int(p.octave.octaves_from_c0.0 as int)
}

/// The index of the first decimal digit of a text at or after `from`, or
/// the text's length where none follows.
pub open spec fn first_digit_at(s: Seq<char>, from: int) -> int
    decreases s.len() - from,
{
    if from < 0 || from >= s.len() {
        s.len() as int
    } else if is_digit(s[from]) {
        from
    } else {
        first_digit_at(s, from + 1)
    }
}

/// What parsing a pitch gives: a pitch class up to the first digit, then an
/// octave number.
pub open spec fn pitch_parse(s: Seq<char>) -> Result<Pitch, &'static str> {
    if s.len() < 3 {
        Err("String is too short to be a Pitch")
    } else {
        let i = first_digit_at(s, 0);
        if i == s.len() {
            Err("String has no octave")
        } else {
            match pc_parse(s.subrange(0, i)) {
                Err(e) => Err(e),
                Ok(class) => match octave_parse(s.subrange(i, s.len() as int)) {
                    Err(_) => Err("Could not parse octave"),
                    Ok(octave) => Ok(Pitch { class, octave }),
                },
            }
        }
    }
}

impl Pitch {
    /// The text of the pitch: class glyphs, then the octave number.
    pub fn to_string(&self) -> (s: String)
        ensures
            s@ == pitch_text(*self),
    {
        let mut s = self.class.to_string();
        let octave = self.octave.to_string();
        s.append(octave.as_str());
        s
    }
}

impl core::convert::TryFrom<&str> for Pitch {
    type Error = &'static str;

    /// Parses a pitch: everything before the first decimal digit names the
    /// class, the rest the octave.
    fn try_from(value: &str) -> Result<Pitch, &'static str> {
        let n = value.unicode_len();
        if n < 3 {
            return Err("String is too short to be a Pitch");
        }
        let mut i: usize = 0;
        while i < n
            invariant
                i <= n,
                n == value@.len(),
                first_digit_at(value@, 0) == first_digit_at(value@, i as int),
            ensures
                i <= n,
                n == value@.len(),
                first_digit_at(value@, 0) == first_digit_at(value@, i as int),
                i < n ==> is_digit(value@[i as int]),
            decreases n - i,
        {
            let c = value.get_char(i);
            let u = c as u32;
            if 48 <= u && u <= 57 {
                proof {
                    assert(is_digit(value@[i as int]));
                }
                break ;
            }
            proof {
                assert(!is_digit(value@[i as int]));
            }
            i = i + 1;
        }
        if i == n {
            proof {
                assert(first_digit_at(value@, n as int) == n);
            }
            return Err("String has no octave");
        }
        let class_slice = value.substring_char(0, i);
        let octave_slice = value.substring_char(i, n);
        let class = match PitchClass::try_from(class_slice) {
            Ok(class) => class,
            Err(e) => {
                return Err(e);
            },
        };
        match Octave::try_from(octave_slice) {
            Ok(octave) => Ok(Pitch { class, octave }),
            Err(()) => Err("Could not parse octave"),
        }
    }
}

impl vstd::std_specs::convert::TryFromSpecImpl<&str> for Pitch {
    open spec fn obeys_try_from_spec() -> bool {
        true
    }

    open spec fn try_from_spec(v: &str) -> Result<Pitch, &'static str> {
        pitch_parse(v@)
    }
}

impl StepsFromC0 for Pitch {
    open spec fn steps_from_c0_req(&self) -> bool {
        fits_scalar(pitch_steps(*self))
    }

    fn steps_from_c0(&self) -> (r: Steps)
        ensures
            r.0 == pitch_steps(*self),
    {
        // Computed in a wider type so only the result needs to fit.
        let wide: i128 = 7 * (self.octave.octaves_from_c0.0 as i128) + (self.class.steps_from_c().0
            as i128);
        Steps(wide as i64)
    }
}

impl SemitonesFromC0 for Pitch {
    open spec fn semitones_from_c0_req(&self) -> bool {
        fits_scalar(pitch_semis(*self))
    }

    fn semitones_from_c0(&self) -> (r: Semitones)
        ensures
            r.0 == pitch_semis(*self),
    {
        let root_part: i64 = self.class.root.semitones_from_c().0;
        let wide: i128 = 12 * (self.octave.octaves_from_c0.0 as i128) + (root_part as i128) + (
        self.class.accidental.offset.0 as i128);
        Semitones(wide as i64)
    }
}

/// Whether transposing a pitch by an interval wraps the root past B, which
/// carries one extra octave.
pub open spec fn pitch_transpose_wraps(p: Pitch, v: Interval) -> bool {
    root_step(p.class.root) + iroot_step(v.class.root) >= 7
}

/// The pitch reached by transposing by an interval: the class moves by the
/// interval's class, the octave by the interval's octaves plus the carry.
pub open spec fn pitch_transpose_spec(p: Pitch, v: Interval) -> Pitch {
    Pitch {
        octave: Octave {
            octaves_from_c0: Octaves(
                (p.octave.octaves_from_c0.0 + v.octaves.0 + if pitch_transpose_wraps(p, v) {
                    1int
                } else {
                    0int
                }) as Scalar,
            ),
        },
        class: pc_transpose_spec(p.class, v.class),
    }
}

/// When transposition by an interval stays within the scalar range.
pub open spec fn pitch_transpose_req(p: Pitch, v: Interval) -> bool {
    pc_transpose_req(p.class, v.class) && fits_scalar(
        p.octave.octaves_from_c0.0 + v.octaves.0 + if pitch_transpose_wraps(p, v) {
            1int
        } else {
            0int
        },
    )
}

impl TransposedBy<&Interval> for Pitch {
    open spec fn transposed_by_req(&self, delta: &Interval) -> bool {
        pitch_transpose_req(*self, *delta)
    }

    /// Transposes the pitch: the whole pitch moves by exactly the interval's
    /// total size, in steps and in semitones alike. The carry past B is what
    /// keeps the octave number right across the B-to-C boundary.
    fn transposed_by(&self, delta: &Interval) -> (r: Self)
        ensures
            r == pitch_transpose_spec(*self, *delta),
            pitch_steps(r) == pitch_steps(*self) + ivl_steps(*delta),
            pitch_semis(r) == pitch_semis(*self) + ivl_semis(*delta),
    {
        let new_class = self.class.transposed_by(&delta.class);
        // If the root has wrapped around, add another octave.
        let wraps = new_class.root.steps_from_c().0 < self.class.root.steps_from_c().0;
        // Computed in a wider type so only the result needs to fit.
        let wide: i128 = (self.octave.octaves_from_c0.0 as i128) + (delta.octaves.0 as i128) + (
        if wraps {
            1
        } else {
            0
        });
        Pitch { octave: Octave { octaves_from_c0: Octaves(wide as i64) }, class: new_class }
    }
}

impl core::cmp::PartialOrd for Pitch {
    fn partial_cmp(&self, other: &Pitch) -> Option<core::cmp::Ordering> {
        if self.octave.octaves_from_c0.0 < other.octave.octaves_from_c0.0 {
            Some(core::cmp::Ordering::Less)
        } else if self.octave.octaves_from_c0.0 > other.octave.octaves_from_c0.0 {
            Some(core::cmp::Ordering::Greater)
        } else {
            self.class.partial_cmp(&other.class)
        }
    }
}

impl vstd::std_specs::cmp::PartialOrdSpecImpl for Pitch {
    open spec fn obeys_partial_cmp_spec() -> bool {
        true
    }

    open spec fn partial_cmp_spec(&self, other: &Pitch) -> Option<core::cmp::Ordering> {
        if pitch_le(*self, *other) && !pitch_le(*other, *self) {
            Some(core::cmp::Ordering::Less)
        } else if pitch_le(*self, *other) && pitch_le(*other, *self) {
            Some(core::cmp::Ordering::Equal)
        } else {
            Some(core::cmp::Ordering::Greater)
        }
    }
}

impl TotalOrder for Pitch {
    open spec fn le_spec(&self, other: &Self) -> bool {
        pitch_le(*self, *other)
    }

    proof fn lemma_le_total(&self, other: &Self) {
    }

    proof fn lemma_le_antisymmetric(&self, other: &Self) {
    }

    proof fn lemma_le_transitive(&self, mid: &Self, other: &Self) {
    }

    fn le(&self, other: &Self) -> (r: bool) {
        if self.octave.octaves_from_c0.0 < other.octave.octaves_from_c0.0 {
            true
        } else if self.octave.octaves_from_c0.0 > other.octave.octaves_from_c0.0 {
            false
        } else {
            TotalOrder::le(&self.class, &other.class)
        }
    }
}

} // verus!
