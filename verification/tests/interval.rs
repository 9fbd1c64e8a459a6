use solfege::interval::IntervalQuality::{Imperfect, Perfectable};
use solfege::interval::IntervalRoot::{Fifth, Fourth, Second, Seventh, Sixth, Third, Unison};
use solfege::interval::{
    augmented, diminished, double_augmented, double_diminished, major, minor, perfect, Interval,
    IntervalClass, IntervalClassUtils, Inverted,
};
use solfege::pitch::PitchRoot::{C, D, F};
use solfege::pitch::{PitchClassUtils, PitchDyad, PitchRootUtils};
use solfege::vertical::Semitones;

#[test]
fn interval_equality() {
    assert_eq!(major(Third).simple(), major(Third).simple(),);

    assert_ne!(major(Third).simple(), major(Third).compound(1),);

    assert_ne!(major(Third).simple(), minor(Third).simple(),);

    assert_ne!(major(Third).simple(), diminished(Fourth).simple(),)
}

#[test]
fn interval_order() {
    assert!(minor(Third).simple() < major(Third).simple());
    assert!(major(Third).simple() < diminished(Fourth).simple());
    assert!(major(Third).simple() < double_diminished(Fourth).simple());
    assert!(major(Third).simple() < major(Second).compound(1));
}

#[test]
fn from_pitch_dyad() {
    assert_eq!(
        Interval::from(&PitchDyad::from((C.o(4), C.o(4)))),
        perfect(Unison).simple(),
    );

    assert_eq!(
        Interval::from(&PitchDyad::from((C.flat().o(4), C.sharp().o(4)))),
        double_augmented(Unison).simple(),
    );

    assert_eq!(
        Interval::from(&PitchDyad::from((D.o(4), F.o(5)))),
        minor(Third).compound(1),
    );
}

#[test]
fn interval_addition() {
    assert_eq!(
        perfect(Fifth).simple() + perfect(Fourth).simple(),
        perfect(Unison).compound(1),
    );

    assert_eq!(
        major(Sixth).simple() + perfect(Fifth).simple(),
        major(Third).compound(1),
    )
}

#[test]
fn interval_subtraction() {
    assert_eq!(
        perfect(Unison).compound(1) - perfect(Fourth).simple(),
        perfect(Fifth).simple(),
    );
}

#[test]
fn interval_class_addition() {
    assert_eq!(perfect(Fourth) + perfect(Unison), perfect(Fourth));

    assert_eq!(perfect(Fourth) + augmented(Unison), augmented(Fourth));

    assert_eq!(
        augmented(Fourth) + augmented(Unison),
        double_augmented(Fourth),
    );

    assert_eq!(perfect(Fourth) + perfect(Fourth), minor(Seventh));

    assert_eq!(minor(Third) + minor(Third), diminished(Fifth));

    assert_eq!(major(Third) + major(Third), augmented(Fifth));
}

#[test]
fn interval_class_wrapping_addition() {
    assert_eq!(major(Sixth) + perfect(Fifth), major(Third));

    assert_eq!(augmented(Fourth) + augmented(Fourth), augmented(Seventh));
}

#[test]
fn interval_class_subtraction() {
    assert_eq!(perfect(Fourth) - perfect(Unison), perfect(Fourth));

    assert_eq!(perfect(Fourth) - augmented(Unison), diminished(Fourth));

    assert_eq!(diminished(Fourth) - diminished(Fourth), perfect(Unison));

    assert_eq!(perfect(Fifth) - major(Third), minor(Third));

    assert_eq!(perfect(Fifth) - minor(Third), major(Third));
}

#[test]
fn interval_class_wrapping_subtraction() {
    assert_eq!(perfect(Unison) - minor(Third), major(Sixth));

    assert_eq!(major(Third) - perfect(Fifth), major(Sixth));
}

#[test]
fn interval_class_inversion() {
    assert_eq!(perfect(Unison).inverted(), perfect(Unison));

    assert_eq!(augmented(Unison).inverted(), diminished(Unison));

    assert_eq!(major(Second).inverted(), minor(Seventh));
}

#[test]
fn interval_quality_display() {
    assert_eq!(Imperfect(Semitones(-3)).to_string(), "dd");
    assert_eq!(Imperfect(Semitones(-2)).to_string(), "d");
    assert_eq!(Imperfect(Semitones(-1)).to_string(), "m");
    assert_eq!(Imperfect(Semitones(0)).to_string(), "M");
    assert_eq!(Imperfect(Semitones(1)).to_string(), "A");
    assert_eq!(Imperfect(Semitones(2)).to_string(), "AA");

    assert_eq!(Perfectable(Semitones(-2)).to_string(), "dd");
    assert_eq!(Perfectable(Semitones(-1)).to_string(), "d");
    assert_eq!(Perfectable(Semitones(0)).to_string(), "P");
    assert_eq!(Perfectable(Semitones(1)).to_string(), "A");
    assert_eq!(Perfectable(Semitones(2)).to_string(), "AA");
}

#[test]
fn interval_root_addition() {
    assert_eq!(Unison + Unison, Unison);
    assert_eq!(Unison + Third, Third);
    assert_eq!(Third + Fourth, Sixth);
}

#[test]
fn interval_root_wrapping_addition() {
    assert_eq!(Sixth + Fifth, Third);
}

#[test]
fn interval_root_subtraction() {
    assert_eq!(Unison - Unison, Unison);
    assert_eq!(Third - Unison, Third);
    assert_eq!(Third - Third, Unison);
    assert_eq!(Fifth - Third, Third);
}

#[test]
fn interval_root_wrapping_subtraction() {
    assert_eq!(Unison - Second, Seventh);
    assert_eq!(Third - Fifth, Sixth);
}

#[test]
fn interval_root_inversion() {
    assert_eq!(Unison.inverted(), Unison);
    assert_eq!(Third.inverted(), Sixth);
}

#[test]
fn test_perfect() {
    assert_eq!(
        perfect(Unison),
        IntervalClass {
            root: Unison,
            semitones: 0.into(),
        }
    );

    assert_eq!(
        perfect(Fourth),
        IntervalClass {
            root: Fourth,
            semitones: 5.into(),
        }
    );

    assert_eq!(
        perfect(Fifth),
        IntervalClass {
            root: Fifth,
            semitones: 7.into(),
        }
    );
}

#[test]
fn test_minor() {
    assert_eq!(
        minor(Second),
        IntervalClass {
            root: Second,
            semitones: 1.into(),
        }
    );

    assert_eq!(
        minor(Third),
        IntervalClass {
            root: Third,
            semitones: 3.into(),
        }
    );

    assert_eq!(
        minor(Sixth),
        IntervalClass {
            root: Sixth,
            semitones: 8.into(),
        }
    );

    assert_eq!(
        minor(Seventh),
        IntervalClass {
            root: Seventh,
            semitones: 10.into(),
        }
    );
}

#[test]
fn test_major() {
    assert_eq!(
        major(Second),
        IntervalClass {
            root: Second,
            semitones: 2.into(),
        }
    );

    assert_eq!(
        major(Third),
        IntervalClass {
            root: Third,
            semitones: 4.into(),
        }
    );

    assert_eq!(
        major(Sixth),
        IntervalClass {
            root: Sixth,
            semitones: 9.into(),
        }
    );

    assert_eq!(
        major(Seventh),
        IntervalClass {
            root: Seventh,
            semitones: 11.into(),
        }
    );
}

#[test]
fn test_diminished() {
    assert_eq!(
        diminished(Third),
        IntervalClass {
            root: Third,
            semitones: 2.into(),
        }
    );

    assert_eq!(
        diminished(Fourth),
        IntervalClass {
            root: Fourth,
            semitones: 4.into(),
        }
    );
}

#[test]
fn test_double_diminished() {
    assert_eq!(
        double_diminished(Third),
        IntervalClass {
            root: Third,
            semitones: 1.into(),
        }
    );

    assert_eq!(
        double_diminished(Fourth),
        IntervalClass {
            root: Fourth,
            semitones: 3.into(),
        }
    );
}

#[test]
fn test_augmented() {
    assert_eq!(
        augmented(Second),
        IntervalClass {
            root: Second,
            semitones: 3.into(),
        }
    );

    assert_eq!(
        augmented(Fourth),
        IntervalClass {
            root: Fourth,
            semitones: 6.into(),
        }
    );
}

#[test]
fn test_double_augmented() {
    assert_eq!(
        double_augmented(Second),
        IntervalClass {
            root: Second,
            semitones: 4.into(),
        }
    );

    assert_eq!(
        double_augmented(Fourth),
        IntervalClass {
            root: Fourth,
            semitones: 7.into(),
        }
    );
}

#[test]
fn test_simple() {
    assert_eq!(
        perfect(Unison).simple(),
        Interval {
            class: IntervalClass {
                root: Unison,
                semitones: 0.into(),
            },
            octaves: 0.into(),
        }
    );

    assert_eq!(
        major(Seventh).simple(),
        Interval {
            class: IntervalClass {
                root: Seventh,
                semitones: 11.into(),
            },
            octaves: 0.into(),
        }
    );
}

#[test]
fn test_compound() {
    assert_eq!(
        perfect(Unison).compound(1),
        Interval {
            class: IntervalClass {
                root: Unison,
                semitones: 0.into(),
            },
            octaves: 1.into(),
        }
    );

    assert_eq!(
        major(Seventh).compound(2),
        Interval {
            class: IntervalClass {
                root: Seventh,
                semitones: 11.into(),
            },
            octaves: 2.into(),
        }
    );
}
