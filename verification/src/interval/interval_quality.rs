use crate::text::repeat_str;
use crate::vertical::Semitones;
use vstd::prelude::*;

verus! {

/// The quality of an interval: a chromatic offset against its root's natural
/// size, on the perfect spectrum (diminished, perfect, augmented) or on the
/// imperfect one (diminished, minor, major, augmented).
///
/// An offset of zero means perfect on the perfectable spectrum and major on
/// the imperfect one.
#[derive(Copy, Clone, PartialEq, Eq, Structural, Debug)]
pub enum IntervalQuality {
    Perfectable(Semitones),
    Imperfect(Semitones),
}

/// Classifying a value by its interval quality.
pub trait GetIntervalQuality {
    /// When the quality offset stays within the scalar range.
    spec fn get_interval_quality_req(&self) -> bool;

    /// Returns the quality of the interval.
    fn get_interval_quality(&self) -> IntervalQuality
        requires
            self.get_interval_quality_req(),
    ;
}

/// Whether a value is exactly perfect.
pub trait IsPerfect {
    /// Returns whether the interval is perfect.
    fn is_perfect(&self) -> bool;
}

/// A quality is perfect exactly when it is perfectable with no offset.
pub open spec fn quality_is_perfect(q: IntervalQuality) -> bool {
    q == IntervalQuality::Perfectable(Semitones(0))
}

impl IsPerfect for IntervalQuality {
    fn is_perfect(&self) -> (r: bool)
        ensures
            r == quality_is_perfect(*self),
    {
        *self == Self::Perfectable(Semitones(0))
    }
}

/// The displayed text of a quality: single letters near the centre of each
/// spectrum, repeated "d"/"A" runs further out.
pub open spec fn quality_text(q: IntervalQuality) -> Seq<char> {
    match q {
        IntervalQuality::Perfectable(offset) => {
            let o = offset.0 as int;
            if o == -1 {
                seq!['d']
            } else if o == 0 {
                seq!['P']
            } else if o == 1 {
                seq!['A']
            } else if o <= -2 {
                Seq::new((-o) as nat, |i: int| 'd')
            } else {
                Seq::new(o as nat, |i: int| 'A')
            }
        },
        IntervalQuality::Imperfect(offset) => {
            let o = offset.0 as int;
            if o == -2 {
                seq!['d']
            } else if o == -1 {
                seq!['m']
            } else if o == 0 {
                seq!['M']
            } else if o == 1 {
                seq!['A']
            } else if o <= -3 {
                Seq::new((-o - 1) as nat, |i: int| 'd')
            } else {
                Seq::new(o as nat, |i: int| 'A')
            }
        },
    }
}

impl IntervalQuality {
    /// The text of the quality: "P" for perfect, "m"/"M" for minor and
    /// major, runs of "d" and "A" for diminished and augmented qualities.
    pub fn to_string(&self) -> (s: String)
        ensures
            s@ == quality_text(*self),
    {
        proof {
            reveal_strlit("d");
            reveal_strlit("m");
            reveal_strlit("M");
            reveal_strlit("P");
            reveal_strlit("A");
        }
        match *self {
            Self::Perfectable(offset) => {
                let o = offset.0;
                if o == -1 {
                    let s = String::from_str("d");
                    proof {
                        assert(s@ =~= quality_text(*self));
                    }
                    s
                } else if o == 0 {
                    let s = String::from_str("P");
                    proof {
                        assert(s@ =~= quality_text(*self));
                    }
                    s
                } else if o == 1 {
                    let s = String::from_str("A");
                    proof {
                        assert(s@ =~= quality_text(*self));
                    }
                    s
                } else if o < 0 {
                    let mag: u64 = ((-(o + 1)) as u64) + 1;
                    let s = repeat_str("d", mag);
                    proof {
                        assert(s@ =~= quality_text(*self));
                    }
                    s
                } else {
                    let s = repeat_str("A", o as u64);
                    proof {
                        assert(s@ =~= quality_text(*self));
                    }
                    s
                }
            },
            Self::Imperfect(offset) => {
                let o = offset.0;
                if o == -2 {
                    let s = String::from_str("d");
                    proof {
                        assert(s@ =~= quality_text(*self));
                    }
                    s
                } else if o == -1 {
                    let s = String::from_str("m");
                    proof {
                        assert(s@ =~= quality_text(*self));
                    }
                    s
                } else if o == 0 {
                    let s = String::from_str("M");
                    proof {
                        assert(s@ =~= quality_text(*self));
                    }
                    s
                } else if o == 1 {
                    let s = String::from_str("A");
                    proof {
                        assert(s@ =~= quality_text(*self));
                    }
                    s
                } else if o < 0 {
                    let mag: u64 = (-(o + 1)) as u64;
                    let s = repeat_str("d", mag);
                    proof {
                        assert(s@ =~= quality_text(*self));
                    }
                    s
                } else {
                    let s = repeat_str("A", o as u64);
                    proof {
                        assert(s@ =~= quality_text(*self));
                    }
                    s
                }
            },
        }
    }
}

} // verus!
