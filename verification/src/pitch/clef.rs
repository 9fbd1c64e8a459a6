use crate::pitch::{
    distance_of_pitch_set_to_pitch, distance_sum, distance_sum_fits, Accidental, Octave, Pitch,
    PitchClass, PitchRoot, PitchSet,
};
use crate::text::str_eq;
use crate::vertical::{Octaves, Semitones};
use vstd::prelude::*;

verus! {

/// A clef, shown at the beginning of a stave to indicate which pitches the
/// lines represent.
#[derive(Copy, Clone, PartialEq, Eq, Structural, Hash, Debug)]
pub enum Clef {
    Treble,
    Alto,
    Bass,
}

/// A list of clefs to pick from, in order of preference.
pub type ClefSet = Vec<Clef>;

/// The pitch at the centre of a clef's stave.
pub open spec fn clef_center(c: Clef) -> Pitch {
    match c {
        Clef::Treble => Pitch {
            octave: Octave { octaves_from_c0: Octaves(4) },
            class: PitchClass { root: PitchRoot::B, accidental: Accidental { offset: Semitones(0) } },
        },
        Clef::Alto => Pitch {
            octave: Octave { octaves_from_c0: Octaves(4) },
            class: PitchClass { root: PitchRoot::C, accidental: Accidental { offset: Semitones(0) } },
        },
        Clef::Bass => Pitch {
            octave: Octave { octaves_from_c0: Octaves(3) },
            class: PitchClass { root: PitchRoot::D, accidental: Accidental { offset: Semitones(0) } },
        },
    }
}

impl Clef {
    /// The pitch at the centre of the clef's stave.
    pub fn center(&self) -> (r: Pitch)
        ensures
            r == clef_center(*self),
    {
        match *self {
            Self::Treble => Pitch {
                octave: Octave { octaves_from_c0: Octaves(4) },
                class: PitchClass {
                    root: PitchRoot::B,
                    accidental: Accidental { offset: Semitones(0) },
                },
            },
            Self::Alto => Pitch {
                octave: Octave { octaves_from_c0: Octaves(4) },
                class: PitchClass {
                    root: PitchRoot::C,
                    accidental: Accidental { offset: Semitones(0) },
                },
            },
            Self::Bass => Pitch {
                octave: Octave { octaves_from_c0: Octaves(3) },
                class: PitchClass {
                    root: PitchRoot::D,
                    accidental: Accidental { offset: Semitones(0) },
                },
            },
        }
    }
}

/// The name of a clef as text.
pub open spec fn clef_text(c: Clef) -> Seq<char> {
    match c {
        Clef::Treble => seq!['t', 'r', 'e', 'b', 'l', 'e'],
        Clef::Alto => seq!['a', 'l', 't', 'o'],
        Clef::Bass => seq!['b', 'a', 's', 's'],
    }
}

/// What parsing a clef gives: the clef a name denotes, if any.
pub open spec fn clef_parse(s: Seq<char>) -> Result<Clef, ()> {
    if s == clef_text(Clef::Treble) {
        Ok(Clef::Treble)
    } else if s == clef_text(Clef::Alto) {
        Ok(Clef::Alto)
    } else if s == clef_text(Clef::Bass) {
        Ok(Clef::Bass)
    } else {
        Err(())
    }
}

impl Clef {
    /// The name of the clef as text.
    pub fn to_string(&self) -> (s: String)
        ensures
            s@ == clef_text(*self),
    {
        proof {
            reveal_strlit("treble");
            reveal_strlit("alto");
            reveal_strlit("bass");
        }
        let lit: &str = match *self {
            Self::Treble => "treble",
            Self::Alto => "alto",
            Self::Bass => "bass",
        };
        let s = String::from_str(lit);
        proof {
            assert(s@ =~= clef_text(*self));
        }
        s
    }
}

impl core::convert::TryFrom<&str> for Clef {
    type Error = ();

    /// Parses a clef name.
    fn try_from(value: &str) -> Result<Clef, ()> {
        proof {
            reveal_strlit("treble");
            reveal_strlit("alto");
            reveal_strlit("bass");
            assert("treble"@ =~= clef_text(Clef::Treble));
            assert("alto"@ =~= clef_text(Clef::Alto));
            assert("bass"@ =~= clef_text(Clef::Bass));
        }
        if str_eq(value, "treble") {
            Ok(Clef::Treble)
        } else if str_eq(value, "bass") {
            Ok(Clef::Bass)
        } else if str_eq(value, "alto") {
            Ok(Clef::Alto)
        } else {
            Err(())
        }
    }
}

impl vstd::std_specs::convert::TryFromSpecImpl<&str> for Clef {
    open spec fn obeys_try_from_spec() -> bool {
        true
    }

    open spec fn try_from_spec(v: &str) -> Result<Clef, ()> {
        clef_parse(v@)
    }
}

/// The distance a clef stands from a set of pitches: the summed semitone
/// distance of each pitch to the clef's centre, or the longest representable
/// distance for an empty set.
pub open spec fn clef_distance(pitches: Seq<Pitch>, c: Clef) -> int {
    if pitches.len() == 0 {
        i64::MAX as int
    } else {
        distance_sum(pitches, clef_center(c))
    }
}

/// The clef at index `i` is the best choice: no clef stands nearer the
/// pitches, and it is the first of the nearest.
pub open spec fn chooses_clef(clefs: Seq<Clef>, pitches: Seq<Pitch>, i: int) -> bool {
    &&& 0 <= i < clefs.len()
    &&& clef_distance(pitches, clefs[i]) < i64::MAX
    &&& forall|j: int|
        0 <= j < clefs.len() ==> #[trigger] clef_distance(pitches, clefs[j]) >= clef_distance(
            pitches,
            clefs[i],
        )
    &&& forall|j: int|
        0 <= j < i ==> #[trigger] clef_distance(pitches, clefs[j]) > clef_distance(
            pitches,
            clefs[i],
        )
}

/// Gives the most suitable clef for a set of pitches: the first one whose
/// centre stands nearest to them. At least one clef must stand strictly
/// nearer than the longest representable distance, or none is chosen.
pub fn best_clef(clefs: &ClefSet, pitches: &PitchSet) -> (r: Clef)
    requires
        clefs@.len() > 0,
        forall|i: int|
            0 <= i < clefs@.len() ==> distance_sum_fits(pitches@, clef_center(#[trigger] clefs@[i])),
        exists|i: int| 0 <= i < clefs@.len() && clef_distance(pitches@, #[trigger] clefs@[i]) < i64::MAX,
    ensures
        exists|i: int| #[trigger] chooses_clef(clefs@, pitches@, i) && clefs@[i] == r,
{
    let mut shortest = Semitones(i64::MAX);
    let mut best: Option<Clef> = None;
    let ghost mut best_i: int = 0;
    let mut idx: usize = 0;
    while idx < clefs.len()
        invariant
            idx <= clefs@.len(),
            forall|i: int|
                0 <= i < clefs@.len() ==> distance_sum_fits(
                    pitches@,
                    clef_center(#[trigger] clefs@[i]),
                ),
            match best {
                Option::None => shortest.0 == i64::MAX && forall|j: int|
                    0 <= j < idx ==> #[trigger] clef_distance(pitches@, clefs@[j]) >= i64::MAX,
                Option::Some(c) => {
                    &&& 0 <= best_i < idx
                    &&& clefs@[best_i] == c
                    &&& clef_distance(pitches@, clefs@[best_i]) == shortest.0
                    &&& shortest.0 < i64::MAX
                    &&& forall|j: int|
                        0 <= j < idx ==> #[trigger] clef_distance(pitches@, clefs@[j]) >= shortest.0
                    &&& forall|j: int|
                        0 <= j < best_i ==> #[trigger] clef_distance(pitches@, clefs@[j])
                            > shortest.0
                },
            },
        decreases clefs@.len() - idx,
    {
        let clef = clefs[idx];
        let distance = distance_of_pitch_set_to_pitch(pitches, clef.center());
        proof {
            assert(distance.0 == clef_distance(pitches@, clefs@[idx as int]));
        }
        if distance < shortest {
            shortest = distance;
            best = Some(clef);
            proof {
                best_i = idx as int;
            }
        }
        idx = idx + 1;
    }
    match best {
        Option::Some(c) => {
            proof {
                assert(chooses_clef(clefs@, pitches@, best_i));
            }
            c
        },
        Option::None => {
            proof {
                let i = choose|i: int|
                    0 <= i < clefs@.len() && clef_distance(pitches@, #[trigger] clefs@[i])
                        < i64::MAX;
                assert(clef_distance(pitches@, clefs@[i]) >= i64::MAX);
                assert(false);
            }
            vstd::pervasive::unreached()
        },
    }
}

} // verus!
