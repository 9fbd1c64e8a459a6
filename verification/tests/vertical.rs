use solfege::vertical::{InOctaves, InSemitones, InSteps, Octaves, Semitones, Steps};

#[test]
fn steps_in_octaves() {
    assert_eq!(Steps(6).in_octaves(), Octaves(0));
    assert_eq!(Steps(7).in_octaves(), Octaves(1));
    assert_eq!(Steps(13).in_octaves(), Octaves(1));
    assert_eq!(Steps(15).in_octaves(), Octaves(2));
}

#[test]
fn semitones_in_octaves() {
    assert_eq!(Semitones(11).in_octaves(), Octaves(0));
    assert_eq!(Semitones(12).in_octaves(), Octaves(1));
    assert_eq!(Semitones(23).in_octaves(), Octaves(1));
    assert_eq!(Semitones(24).in_octaves(), Octaves(2));
}

#[test]
fn in_steps() {
    assert_eq!(Octaves(3).in_steps(), Steps(21));
}

#[test]
fn in_semitones() {
    assert_eq!(Octaves(3).in_semitones(), Semitones(36));
}
