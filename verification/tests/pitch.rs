use solfege::interval::IntervalRoot::{Fifth, Fourth, Third};
use solfege::interval::{major, minor, perfect, IntervalClassUtils};
use solfege::pitch::PitchRoot::{A, B, C, D, E, F, G};
use solfege::pitch::{
    best_clef, Accidental, Clef, ClefSet, Octave, Pitch, PitchClassUtils, PitchRoot,
    PitchRootUtils, PitchSet,
};
use solfege::vertical::{
    Octaves, Semitones, SemitonesFromC, SemitonesFromC0, Steps, StepsFromC, StepsFromC0,
    TransposedBy,
};

#[test]
fn accidental_transposition() {
    assert_eq!(
        Accidental { offset: 0.into() }.transposed_by(Semitones(1)),
        Accidental { offset: 1.into() },
    );

    assert_eq!(
        Accidental { offset: 0.into() }.transposed_by(Semitones(-1)),
        Accidental { offset: (-1).into() },
    );
}

#[test]
fn test_best_clef() {
    let clefs = ClefSet::from([Clef::Treble, Clef::Bass]);

    let pitches_treble = PitchSet::from([B.o(3), E.o(4), G.o(4)]);
    let pitches_bass = PitchSet::from([E.o(3), G.o(3), C.o(4)]);

    assert_eq!(best_clef(&clefs, &pitches_treble), Clef::Treble,);

    assert_eq!(best_clef(&clefs, &pitches_bass), Clef::Bass,);
}

#[test]
fn octave_steps_from_c0() {
    assert_eq!(Octave::from(0).steps_from_c0(), Steps(0));
    assert_eq!(Octave::from(4).steps_from_c0(), Steps(28));
}

#[test]
fn octave_semitones_from_c0() {
    assert_eq!(Octave::from(0).semitones_from_c0(), Semitones(0));
    assert_eq!(Octave::from(4).semitones_from_c0(), Semitones(48));
}

#[test]
fn octave_subtraction() {
    assert_eq!(Octave::from(4) - Octave::from(1), Octaves(3));
    assert_eq!(Octave::from(4) - Octave::from(4), Octaves(0));
}

#[test]
fn octave_transposition() {
    assert_eq!(Octave::from(4).transposed_by(Octaves(1)), Octave::from(5));
    assert_eq!(Octave::from(4).transposed_by(Octaves(-1)), Octave::from(3));
}

#[test]
fn octave_display() {
    assert_eq!(Octave::from(4).to_string(), "4");
}

#[test]
fn pitch_steps_from_c0() {
    assert_eq!(E.flat().o(3).steps_from_c0(), Steps(23));
}

#[test]
fn pitch_semitones_from_c0() {
    assert_eq!(E.flat().o(3).semitones_from_c0(), Semitones(39));
}

#[test]
fn pitch_transposition() {
    assert_eq!(E.flat().o(3).transposed_by(&major(Third).simple()), G.o(3));
    assert_eq!(E.o(4).transposed_by(&perfect(Fifth).simple()), B.o(4));
    assert_eq!(G.o(4).transposed_by(&perfect(Fourth).simple()), C.o(5));
    assert_eq!(G.o(4).transposed_by(&perfect(Fourth).compound(1)), C.o(6));
}

#[test]
fn pitch_display() {
    assert_eq!(C.o(4).to_string(), "C♮4");
}

#[test]
fn from_str() {
    assert_eq!("C♮4".try_into(), Ok(C.o(4)))
}

#[test]
fn pitch_class_order() {
    assert!(C.flat() < C.natural());
    assert!(C.sharp() < D.natural());
    assert!(E.sharp() < F.flat());
}

#[test]
fn pitch_class_steps_from_c() {
    assert_eq!(C.flat().steps_from_c(), Steps(0));
    assert_eq!(B.sharp().steps_from_c(), Steps(6));
}

#[test]
fn pitch_class_semitones_from_c() {
    assert_eq!(C.natural().semitones_from_c(), Semitones(0));
    assert_eq!(F.sharp().semitones_from_c(), Semitones(6));
    assert_eq!(C.flat().semitones_from_c(), Semitones(-1));
    assert_eq!(B.sharp().semitones_from_c(), Semitones(12));
}

#[test]
fn transposition_by_steps() {
    assert_eq!(D.flat().transposed_by(Steps(1)), E.flat());
    assert_eq!(A.sharp().transposed_by(Steps(2)), C.sharp());
}

#[test]
fn transposition_by_semitones() {
    assert_eq!(D.flat().transposed_by(Semitones(1)), D.natural());
    assert_eq!(B.natural().transposed_by(Semitones(1)), B.sharp());
}

#[test]
fn transposition_by_interval_class() {
    assert_eq!(D.flat().transposed_by(&major(Third)), F.natural());
    assert_eq!(B.flat().transposed_by(&minor(Third)), D.flat());
}

#[test]
fn pitch_class_display() {
    assert_eq!(F.sharp().to_string(), "F♯");
}

#[test]
fn pitch_root_order() {
    assert!(C < D);
    assert!(C < B);
}

#[test]
fn pitch_root_steps_from_c() {
    assert_eq!(C.steps_from_c(), Steps(0));
    assert_eq!(B.steps_from_c(), Steps(6));
}

#[test]
fn pitch_root_semitones_from_c() {
    assert_eq!(C.semitones_from_c(), Semitones(0));
    assert_eq!(B.semitones_from_c(), Semitones(11));
}

#[test]
fn from_steps() {
    assert_eq!(PitchRoot::from(Steps(2)), E);
    assert_eq!(PitchRoot::from(Steps(9)), E);
    assert_eq!(PitchRoot::from(Steps(-5)), E);
}

#[test]
fn transposed_by_steps() {
    assert_eq!(C.transposed_by(Steps(2)), E);
    assert_eq!(B.transposed_by(Steps(2)), D);
}

#[test]
fn transposed_by_interval_root() {
    assert_eq!(C.transposed_by(Third), E);
    assert_eq!(B.transposed_by(Third), D);
}

#[test]
fn pitch_root_display() {
    assert_eq!(C.to_string(), "C");
}
