use solfege::harmony::Dyad;
use solfege::interval::IntervalQuality::Imperfect;
use solfege::interval::IntervalRoot::{Fifth, Fourth, Second, Sixth, Third, Unison};
use solfege::interval::{
    major, minor, perfect, GetIntervalQuality, Interval, IntervalClass, IntervalClassUtils,
    IntervalRoot, Inverted, IsPerfect,
};
use solfege::pitch::PitchRoot::{A, B, C, D, E, F, G};
use solfege::pitch::{
    distance_of_pitch_set_to_pitch, natural_pitch_class_set, tonal_pitch_class_set, Accidental,
    Clef, InRange, Octave, Pitch, PitchClass, PitchClassSet, PitchClassUtils, PitchDyad,
    PitchRoot, PitchRootUtils, PitchSet,
};
use solfege::vertical::{Octaves, Semitones, Steps, TransposedBy};

#[test]
fn pitch_root_from_steps_is_periodic() {
    for n in -21i64..21 {
        assert_eq!(PitchRoot::from(Steps(n)), PitchRoot::from(Steps(n + 7)));
    }
}

#[test]
fn dyads_ignore_argument_order() {
    let pairs = [(C.o(4), E.flat().o(5)), (B.sharp().o(3), C.flat().o(4))];
    for (a, b) in pairs {
        assert_eq!(PitchDyad::from((a, b)), PitchDyad::from((b, a)));
    }
    assert_eq!(Dyad::from((E.flat(), D.sharp())), Dyad::from((D.sharp(), E.flat())));
}

#[test]
fn interval_subtraction_round_trips() {
    let x = major(Sixth).compound(1);
    let y = perfect(Fifth).simple();
    assert_eq!((x - y) + y, x);

    let z = minor(Second).simple();
    assert_eq!((y - z) + z, y);
}

#[test]
fn interval_class_inversion_is_involutive() {
    let classes = [perfect(Unison), minor(Second), major(Third), perfect(Fourth), minor(
        Sixth,
    )];
    for c in classes {
        assert_eq!(c.inverted().inverted(), c);
    }
}

#[test]
fn accidental_display_parse_round_trips() {
    for offset in -3i64..=3 {
        let accidental = Accidental { offset: Semitones(offset) };
        let text = accidental.to_string();
        assert_eq!(Accidental::try_from(text.as_str()), Ok(accidental));
    }
}

#[test]
fn accidental_display_exact() {
    assert_eq!(Accidental { offset: Semitones(-3) }.to_string(), "♭♭♭");
    assert_eq!(Accidental { offset: Semitones(-2) }.to_string(), "𝄫");
    assert_eq!(Accidental { offset: Semitones(0) }.to_string(), "♮");
    assert_eq!(Accidental { offset: Semitones(1) }.to_string(), "♯");
    assert_eq!(Accidental { offset: Semitones(3) }.to_string(), "♯♯♯");
}

#[test]
fn accidental_parse_rejects_other_text() {
    assert_eq!(
        Accidental::try_from("x"),
        Err("Could not parse Accidental"),
    );
    assert_eq!(
        Accidental::try_from("♮x"),
        Err("Could not parse Accidental"),
    );
}

#[test]
fn pitch_root_parse_errors() {
    assert_eq!(PitchRoot::try_from("H"), Err("Could not recognise pitch root"));
    assert_eq!(PitchRoot::try_from("CD"), Err("Could not recognise pitch root"));
    assert_eq!(PitchRoot::try_from("G"), Ok(G));
}

#[test]
fn pitch_class_parse_errors() {
    assert_eq!(
        PitchClass::try_from("C"),
        Err("String is too short to be a Pitch Class"),
    );
    assert_eq!(
        PitchClass::try_from("X♮"),
        Err("Could not recognise pitch root"),
    );
    assert_eq!(PitchClass::try_from("E♭"), Ok(E.flat()));
}

#[test]
fn pitch_parse_errors() {
    assert_eq!(
        Pitch::try_from("C4"),
        Err("String is too short to be a Pitch"),
    );
    assert_eq!(Pitch::try_from("C♮♮"), Err("String has no octave"));
    assert_eq!(Pitch::try_from("F♯13"), Ok(F.sharp().o(13)));
}

#[test]
fn octave_parse_errors() {
    assert_eq!(Octave::try_from("12"), Ok(Octave::from(12)));
    assert_eq!(Octave::try_from(""), Err(()));
    assert_eq!(Octave::try_from("4x"), Err(()));
    assert_eq!(Octave::try_from("99999999999999999999"), Err(()));
}

#[test]
fn clef_display_parse() {
    assert_eq!(Clef::Treble.to_string(), "treble");
    assert_eq!(Clef::try_from("bass"), Ok(Clef::Bass));
    assert_eq!(Clef::try_from("tenor"), Err(()));
}

#[test]
fn interval_display() {
    let major_tenth = Interval {
        class: IntervalClass { root: IntervalRoot::Third, semitones: Semitones(4) },
        octaves: Octaves(1),
    };
    assert_eq!(major_tenth.to_string(), "M10");
    assert_eq!(major(Third).to_string(), "M3");
    assert_eq!(IntervalRoot::Third.to_string(), "3");
}

#[test]
fn quality_of_dyad_interval() {
    let third = Interval::from(&PitchDyad::from((D.o(4), F.o(4))));
    assert_eq!(third.get_interval_quality(), Imperfect(Semitones(-1)));
    assert!(!third.is_perfect());
    assert!(perfect(Fifth).is_perfect());
}

#[test]
fn natural_set_holds_the_seven_naturals() {
    let set = natural_pitch_class_set();
    assert_eq!(set.len(), 7);
    for root in [C, D, E, F, G, A, B] {
        assert!(set.contains(&root.natural()));
    }
}

#[test]
fn tonal_set_with_depth_two() {
    let set = tonal_pitch_class_set(2);
    for natural in [C, D, E, F, G, A, B] {
        assert!(set.contains(&natural.natural()));
    }
    assert!(set.contains(&B.flat()));
    assert!(set.contains(&E.flat()));
    assert!(set.contains(&F.sharp()));
    assert!(set.contains(&C.sharp()));
    assert_eq!(set.len(), 11);
}

#[test]
fn transposed_class_set_spells_d_flat_major() {
    let minor_second = IntervalClass { root: Second, semitones: Semitones(1) };
    let transposed_set = natural_pitch_class_set().transposed_by(&minor_second);
    assert!(transposed_set.contains(&D.flat()));
    assert!(transposed_set.contains(&E.flat()));
    assert!(transposed_set.contains(&F.natural()));
    assert!(transposed_set.contains(&G.flat()));
    assert!(transposed_set.contains(&A.flat()));
    assert!(transposed_set.contains(&B.flat()));
    assert!(transposed_set.contains(&C.natural()));
    assert_eq!(transposed_set.len(), 7);
}

#[test]
fn major_scale_set_of_e_flat() {
    let set = E.flat().major();
    assert!(set.contains(&E.flat()));
    assert!(set.contains(&A.flat()));
    assert!(set.contains(&B.flat()));
    assert!(set.contains(&C.natural()));
    assert_eq!(set.len(), 7);
}

#[test]
fn pitches_in_range() {
    let pitch_class_set = PitchClassSet::from([C.natural(), E.natural(), G.natural()]);
    let pitch_set = pitch_class_set.in_range(&PitchDyad::from((E.natural().o(3), C.flat().o(5))));
    assert!(pitch_set.contains(&E.natural().o(3)));
    assert!(pitch_set.contains(&G.natural().o(3)));
    assert!(pitch_set.contains(&C.natural().o(4)));
    assert!(pitch_set.contains(&E.natural().o(4)));
    assert!(pitch_set.contains(&G.natural().o(4)));
    assert_eq!(pitch_set.len(), 5);
}

#[test]
fn distance_of_set_to_pitch() {
    let pitch_set = PitchSet::from([C.o(4), E.o(4), G.o(4)]);
    let pitch = D.o(4);
    assert_eq!(distance_of_pitch_set_to_pitch(&pitch_set, pitch), Semitones(9));
    assert_eq!(
        distance_of_pitch_set_to_pitch(&PitchSet::new(), pitch),
        Semitones(i64::MAX),
    );
}

#[test]
fn transposing_by_a_diminished_unison_lowers_the_class() {
    let diminished_unison = IntervalClass { root: Unison, semitones: Semitones(-1) };
    assert_eq!(C.natural().transposed_by(&diminished_unison), C.flat());
    // The root does not wrap, so the octave stays put.
    assert_eq!(
        C.o(4).transposed_by(&diminished_unison.simple()),
        C.flat().o(4),
    );
}
