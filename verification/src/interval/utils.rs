use crate::interval::{
    iroot_perfect, iroot_semi, Interval, IntervalClass, IntervalRoot, IsPerfect,
};
use crate::vertical::{InSemitones, Octaves, Semitones};
use crate::Scalar;
use vstd::prelude::*;

verus! {

/// Creates a perfect interval class; only a perfect root can carry one.
pub fn perfect(root: IntervalRoot) -> (r: IntervalClass)
    requires
        iroot_perfect(root),
    ensures
        r.root == root,
        r.semitones.0 == iroot_semi(root),
{
    IntervalClass { root, semitones: root.in_semitones() }
}

/// Creates a minor interval class; only an imperfect root can carry one.
pub fn minor(root: IntervalRoot) -> (r: IntervalClass)
    requires
        !iroot_perfect(root),
    ensures
        r.root == root,
        r.semitones.0 == iroot_semi(root) - 1,
{
    IntervalClass { root, semitones: root.in_semitones() - Semitones(1) }
}

/// Creates a major interval class; only an imperfect root can carry one.
pub fn major(root: IntervalRoot) -> (r: IntervalClass)
    requires
        !iroot_perfect(root),
    ensures
        r.root == root,
        r.semitones.0 == iroot_semi(root),
{
    IntervalClass { root, semitones: root.in_semitones() }
}

/// Creates a diminished interval class: one semitone under perfect, two
/// under major.
pub fn diminished(root: IntervalRoot) -> (r: IntervalClass)
    ensures
        r.root == root,
        r.semitones.0 == iroot_semi(root) - (if iroot_perfect(root) {
            1int
        } else {
            2int
        }),
{
    let offset = if root.is_perfect() {
        Semitones(1)
    } else {
        Semitones(2)
    };
    IntervalClass { root, semitones: root.in_semitones() - offset }
}

/// Creates a double diminished interval class: two semitones under perfect,
/// three under major.
pub fn double_diminished(root: IntervalRoot) -> (r: IntervalClass)
    ensures
        r.root == root,
        r.semitones.0 == iroot_semi(root) - (if iroot_perfect(root) {
            2int
        } else {
            3int
        }),
{
    let offset = if root.is_perfect() {
        Semitones(2)
    } else {
        Semitones(3)
    };
    IntervalClass { root, semitones: root.in_semitones() - offset }
}

/// Creates an augmented interval class: one semitone over the natural span.
pub fn augmented(root: IntervalRoot) -> (r: IntervalClass)
    ensures
        r.root == root,
        r.semitones.0 == iroot_semi(root) + 1,
{
    IntervalClass { root, semitones: root.in_semitones() + Semitones(1) }
}

/// Creates a double augmented interval class: two semitones over the
/// natural span.
pub fn double_augmented(root: IntervalRoot) -> (r: IntervalClass)
    ensures
        r.root == root,
        r.semitones.0 == iroot_semi(root) + 2,
{
    IntervalClass { root, semitones: root.in_semitones() + Semitones(2) }
}

/// Placing an interval class into an octave span.
pub trait IntervalClassUtils {
    /// Creates a 'simple' version of the interval, smaller than an octave.
    fn simple(&self) -> Interval;

    /// Compounds the interval by a number of octaves.
    fn compound(&self, num_of_octaves: Scalar) -> Interval;
}

impl IntervalClassUtils for IntervalClass {
    fn simple(&self) -> (r: Interval)
        ensures
            r == (Interval { octaves: Octaves(0), class: *self }),
    {
        self.compound(0)
    }

    fn compound(&self, num_of_octaves: Scalar) -> (r: Interval)
        ensures
            r == (Interval { octaves: Octaves(num_of_octaves), class: *self }),
    {
        Interval { octaves: Octaves(num_of_octaves), class: *self }
    }
}

} // verus!
