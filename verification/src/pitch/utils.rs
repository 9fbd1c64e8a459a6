use crate::arith::fits_scalar;
use crate::interval::{
    iroot_of_step, minor, IntervalClass, IntervalRoot,
};
use crate::order::sorted_distinct;
use crate::pitch::{
    natural_pitch_class_set, pc_natural, pc_semis, pc_transpose_req, pc_transpose_spec, root_step,
    Accidental, Octave, Pitch, PitchClass, PitchClassSet, PitchRoot,
};
use crate::vertical::{Octaves, Semitones, SemitonesFromC, StepsFromC, TransposedBy};
use crate::Scalar;
use vstd::prelude::*;

verus! {

/// Attaching an accidental to a pitch root.
pub trait PitchRootUtils {
    /// The root lowered by one semitone.
    fn flat(&self) -> PitchClass;

    /// The root unaltered.
    fn natural(&self) -> PitchClass;

    /// The root raised by one semitone.
    fn sharp(&self) -> PitchClass;
}

impl PitchRootUtils for PitchRoot {
    fn flat(&self) -> (r: PitchClass)
        ensures
            r == (PitchClass { root: *self, accidental: Accidental { offset: Semitones(-1i64) } }),
    {
        PitchClass { root: *self, accidental: Accidental { offset: Semitones(-1) } }
    }

    fn natural(&self) -> (r: PitchClass)
        ensures
            r == (PitchClass { root: *self, accidental: Accidental { offset: Semitones(0) } }),
    {
        PitchClass { root: *self, accidental: Accidental { offset: Semitones(0) } }
    }

    fn sharp(&self) -> (r: PitchClass)
        ensures
            r == (PitchClass { root: *self, accidental: Accidental { offset: Semitones(1) } }),
    {
        PitchClass { root: *self, accidental: Accidental { offset: Semitones(1) } }
    }
}

/// The interval class that carries C natural to a given pitch class: its
/// root matches the class's root letter and its span the class's chromatic
/// position.
pub open spec fn pc_scale_interval(pc: PitchClass) -> IntervalClass {
    IntervalClass {
        root: iroot_of_step(root_step(pc.root)),
        semitones: Semitones(pc_semis(pc) as Scalar),
    }
}

/// A minor third: the interval between a minor key and its relative major.
pub open spec fn minor_third_class() -> IntervalClass {
    IntervalClass { root: IntervalRoot::Third, semitones: Semitones(3) }
}

/// When building the major scale set of a class stays in the scalar range.
pub open spec fn pc_major_req(pc: PitchClass) -> bool {
    &&& fits_scalar(pc_semis(pc))
    &&& forall|x: PitchClass| pc_natural(x) ==> pc_transpose_req(x, pc_scale_interval(pc))
}

/// When building the minor scale set of a class stays in the scalar range.
pub open spec fn pc_minor_req(pc: PitchClass) -> bool {
    &&& pc_major_req(pc)
    &&& forall|x: PitchClass|
        pc_natural(x) ==> pc_transpose_req(
            pc_transpose_spec(x, pc_scale_interval(pc)),
            minor_third_class(),
        )
}

/// Deriving pitches and scale sets from a class-like value.
pub trait PitchClassUtils {
    /// When the scale sets stay within the scalar range.
    spec fn scale_req(&self) -> bool;

    /// Places the class in an octave.
    fn o(&self, octave_scalar: Scalar) -> Pitch;

    /// The major scale set rooted at this class.
    fn major(&self) -> PitchClassSet
        requires
            self.scale_req(),
    ;

    /// The minor scale set rooted at this class.
    fn minor(&self) -> PitchClassSet
        requires
            self.scale_req(),
    ;
}

impl PitchClassUtils for PitchClass {
    open spec fn scale_req(&self) -> bool {
        pc_minor_req(*self)
    }

    fn o(&self, octave_scalar: Scalar) -> (r: Pitch)
        ensures
            r == (Pitch {
                octave: Octave { octaves_from_c0: Octaves(octave_scalar) },
                class: *self,
            }),
    {
        Pitch { class: *self, octave: Octave { octaves_from_c0: Octaves(octave_scalar) } }
    }

    /// The naturals carried up so that C natural lands on this class.
    fn major(&self) -> (r: PitchClassSet)
        ensures
            sorted_distinct(r@),
            forall|y: PitchClass|
                r@.contains(y) <==> exists|x: PitchClass|
                    pc_natural(x) && y == pc_transpose_spec(x, pc_scale_interval(*self)),
    {
        let interval = IntervalClass {
            root: IntervalRoot::from(self.steps_from_c()),
            semitones: self.semitones_from_c(),
        };
        let naturals = natural_pitch_class_set();
        proof {
            crate::interval::lemma_iroot_of_small_step(root_step(self.root));
            assert(interval == pc_scale_interval(*self));
            assert forall|i: int|
                0 <= i < naturals@.len() implies pc_transpose_req(
                #[trigger] naturals@[i],
                interval,
            ) by {
                assert(naturals@.contains(naturals@[i]));
                assert(pc_natural(naturals@[i]));
                assert(pc_transpose_req(naturals@[i], pc_scale_interval(*self)));
            }
        }
        let r = naturals.transposed_by(&interval);
        proof {
            assert forall|y: PitchClass|
                r@.contains(y) <==> exists|x: PitchClass|
                    pc_natural(x) && y == pc_transpose_spec(x, pc_scale_interval(*self)) by {
                if r@.contains(y) {
                    let x = choose|x: PitchClass|
                        naturals@.contains(x) && y == pc_transpose_spec(x, interval);
                    assert(pc_natural(x) && y == pc_transpose_spec(x, pc_scale_interval(*self)));
                }
                if exists|x: PitchClass|
                    pc_natural(x) && y == pc_transpose_spec(x, pc_scale_interval(*self)) {
                    let x = choose|x: PitchClass|
                        pc_natural(x) && y == pc_transpose_spec(x, pc_scale_interval(*self));
                    assert(naturals@.contains(x) && y == pc_transpose_spec(x, interval));
                }
            }
        }
        r
    }

    /// The major scale set of the relative major, a minor third up.
    fn minor(&self) -> (r: PitchClassSet)
        ensures
            sorted_distinct(r@),
            forall|y: PitchClass|
                r@.contains(y) <==> exists|x: PitchClass|
                    pc_natural(x) && y == pc_transpose_spec(
                        pc_transpose_spec(x, pc_scale_interval(*self)),
                        minor_third_class(),
                    ),
    {
        let base = self.major();
        let third = minor(IntervalRoot::Third);
        proof {
            assert(third == minor_third_class());
            assert forall|i: int|
                0 <= i < base@.len() implies pc_transpose_req(#[trigger] base@[i], third) by {
                assert(base@.contains(base@[i]));
                let x = choose|x: PitchClass|
                    pc_natural(x) && base@[i] == pc_transpose_spec(x, pc_scale_interval(*self));
                assert(pc_transpose_req(
                    pc_transpose_spec(x, pc_scale_interval(*self)),
                    minor_third_class(),
                ));
            }
        }
        let r = base.transposed_by(&third);
        proof {
            assert forall|y: PitchClass|
                r@.contains(y) <==> exists|x: PitchClass|
                    pc_natural(x) && y == pc_transpose_spec(
                        pc_transpose_spec(x, pc_scale_interval(*self)),
                        minor_third_class(),
                    ) by {
                if r@.contains(y) {
                    let m = choose|m: PitchClass|
                        base@.contains(m) && y == pc_transpose_spec(m, third);
                    let x = choose|x: PitchClass|
                        pc_natural(x) && m == pc_transpose_spec(x, pc_scale_interval(*self));
                    assert(pc_natural(x) && y == pc_transpose_spec(
                        pc_transpose_spec(x, pc_scale_interval(*self)),
                        minor_third_class(),
                    ));
                }
                if exists|x: PitchClass|
                    pc_natural(x) && y == pc_transpose_spec(
                        pc_transpose_spec(x, pc_scale_interval(*self)),
                        minor_third_class(),
                    ) {
                    let x = choose|x: PitchClass|
                        pc_natural(x) && y == pc_transpose_spec(
                            pc_transpose_spec(x, pc_scale_interval(*self)),
                            minor_third_class(),
                        );
                    let m = pc_transpose_spec(x, pc_scale_interval(*self));
                    assert(base@.contains(m) && y == pc_transpose_spec(m, third));
                }
            }
        }
        r
    }
}

impl PitchClassUtils for PitchRoot {
    open spec fn scale_req(&self) -> bool {
        pc_minor_req(PitchClass { root: *self, accidental: Accidental { offset: Semitones(0) } })
    }

    fn o(&self, octave_scalar: Scalar) -> (r: Pitch)
        ensures
            r == (Pitch {
                octave: Octave { octaves_from_c0: Octaves(octave_scalar) },
                class: PitchClass { root: *self, accidental: Accidental { offset: Semitones(0) } },
            }),
    {
        self.natural().o(octave_scalar)
    }

    fn major(&self) -> (r: PitchClassSet)
        ensures
            sorted_distinct(r@),
            forall|y: PitchClass|
                r@.contains(y) <==> exists|x: PitchClass|
                    pc_natural(x) && y == pc_transpose_spec(
                        x,
                        pc_scale_interval(
                            PitchClass {
                                root: *self,
                                accidental: Accidental { offset: Semitones(0) },
                            },
                        ),
                    ),
    {
        self.natural().major()
    }

    fn minor(&self) -> (r: PitchClassSet)
        ensures
            sorted_distinct(r@),
            forall|y: PitchClass|
                r@.contains(y) <==> exists|x: PitchClass|
                    pc_natural(x) && y == pc_transpose_spec(
                        pc_transpose_spec(
                            x,
                            pc_scale_interval(
                                PitchClass {
                                    root: *self,
                                    accidental: Accidental { offset: Semitones(0) },
                                },
                            ),
                        ),
                        minor_third_class(),
                    ),
    {
        self.natural().minor()
    }
}

} // verus!
