use crate::harmony::{dyad_from_spec, Dyad};
use crate::pitch::{Pitch, PitchClass, PitchRoot};
use vstd::prelude::*;

verus! {

/// A dyad of pitches.
pub type PitchDyad = Dyad<Pitch>;

/// A dyad of pitch classes.
pub type PitchClassDyad = Dyad<PitchClass>;

/// A dyad of pitch roots.
pub type PitchRootDyad = Dyad<PitchRoot>;

impl core::convert::From<&PitchDyad> for PitchClassDyad {
    /// Projects a pitch dyad onto its classes, reordering where dropping the
    /// octaves reverses the pair.
    fn from(pitch_dyad: &PitchDyad) -> PitchClassDyad {
        PitchClassDyad::from((pitch_dyad.low.class, pitch_dyad.high.class))
    }
}

impl vstd::std_specs::convert::FromSpecImpl<&PitchDyad> for PitchClassDyad {
    open spec fn obeys_from_spec() -> bool {
        true
    }

    open spec fn from_spec(v: &PitchDyad) -> PitchClassDyad {
        dyad_from_spec(v.low.class, v.high.class)
    }
}

impl core::convert::From<&PitchDyad> for PitchRootDyad {
    /// Projects a pitch dyad onto its roots, reordering where dropping the
    /// octaves and accidentals reverses the pair.
    fn from(pitch_dyad: &PitchDyad) -> PitchRootDyad {
        PitchRootDyad::from((pitch_dyad.low.class.root, pitch_dyad.high.class.root))
    }
}

impl vstd::std_specs::convert::FromSpecImpl<&PitchDyad> for PitchRootDyad {
    open spec fn obeys_from_spec() -> bool {
        true
    }

    open spec fn from_spec(v: &PitchDyad) -> PitchRootDyad {
        dyad_from_spec(v.low.class.root, v.high.class.root)
    }
}

impl core::convert::From<&PitchClassDyad> for PitchRootDyad {
    /// Projects a pitch class dyad onto its roots, reordering where dropping
    /// the accidentals reverses the pair.
    fn from(pitch_class_dyad: &PitchClassDyad) -> PitchRootDyad {
        PitchRootDyad::from((pitch_class_dyad.low.root, pitch_class_dyad.high.root))
    }
}

impl vstd::std_specs::convert::FromSpecImpl<&PitchClassDyad> for PitchRootDyad {
    open spec fn obeys_from_spec() -> bool {
        true
    }

    open spec fn from_spec(v: &PitchClassDyad) -> PitchRootDyad {
        dyad_from_spec(v.low.root, v.high.root)
    }
}

} // verus!
