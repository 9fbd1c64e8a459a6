//! Pitches: diatonic roots, accidentals, pitch classes and absolute pitches.
mod accidental;
mod clef;
mod dyads;
mod octave;
mod pitch;
mod pitch_class;
mod pitch_root;
mod sets;
mod utils;

pub use self::accidental::{
    accidental_parse, accidental_text, glyph_ok, glyph_semis, glyph_sum, glyphs_ok,
    lemma_accidental_display_parse_round_trip, Accidental,
};
pub use self::clef::{
    best_clef, chooses_clef, clef_center, clef_distance, clef_parse, clef_text, Clef, ClefSet,
};
pub use self::dyads::{PitchClassDyad, PitchDyad, PitchRootDyad};
pub use self::octave::{octave_parse, Octave};
pub use self::pitch::{
    first_digit_at, pitch_le, pitch_parse, pitch_semis, pitch_steps, pitch_text,
    pitch_transpose_req, pitch_transpose_spec, pitch_transpose_wraps, Pitch,
};
pub use self::pitch_class::{
    pc_le, pc_lt, pc_parse, pc_semis, pc_text, pc_transpose_offset, pc_transpose_req,
    pc_transpose_root, pc_transpose_spec, PitchClass,
};
pub use self::pitch_root::{
    root_char, root_from_steps, root_of_char, root_of_step, root_parse, root_semi, root_step,
    PitchRoot,
};
pub use self::sets::{
    distance_of_pitch_set_to_pitch, distance_sum, distance_sum_fits, flatward_class,
    natural_pitch_class_set, pc_natural, perfect_fifth_class, perfect_fourth_class,
    pitch_pair_distance, sharpward_class, tonal_pitch_class_set, InRange, PitchClassSet,
    PitchRootSet, PitchSet,
};
pub use self::utils::{
    minor_third_class, pc_major_req, pc_minor_req, pc_scale_interval, PitchClassUtils,
    PitchRootUtils,
};
