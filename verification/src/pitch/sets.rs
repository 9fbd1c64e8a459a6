use crate::arith::fits_scalar;
use crate::harmony::{dyad_from_spec, Dyad};
use crate::interval::{interval_of_dyad, ivl_semis, perfect, Interval, IntervalClass, IntervalRoot};
use crate::order::{set_insert, sorted_distinct, TotalOrder};
use crate::pitch::{
    pc_transpose_req, pc_transpose_spec, pitch_le, pitch_transpose_req, pitch_transpose_spec,
    Accidental, Octave, Pitch, PitchClass, PitchDyad, PitchRoot,
};
use crate::vertical::{InSemitones, Octaves, Semitones, TransposedBy};
use vstd::prelude::*;

verus! {

/// A set of pitches: a sorted vector without duplicates.
pub type PitchSet = Vec<Pitch>;

/// A set of pitch classes: a sorted vector without duplicates.
pub type PitchClassSet = Vec<PitchClass>;

/// A set of pitch roots: a sorted vector without duplicates.
pub type PitchRootSet = Vec<PitchRoot>;

/// A natural pitch class: a root with no alteration.
pub open spec fn pc_natural(pc: PitchClass) -> bool {
    pc.accidental.offset.0 == 0
}

/// All the natural pitch classes, equal to C major or A minor.
pub fn natural_pitch_class_set() -> (r: PitchClassSet)
    ensures
        sorted_distinct(r@),
        r@.len() == 7,
        forall|pc: PitchClass| r@.contains(pc) <==> pc_natural(pc),
{
    let naturals: Vec<PitchClass> = vec![
        PitchClass { root: PitchRoot::C, accidental: Accidental { offset: Semitones(0) } },
        PitchClass { root: PitchRoot::D, accidental: Accidental { offset: Semitones(0) } },
        PitchClass { root: PitchRoot::E, accidental: Accidental { offset: Semitones(0) } },
        PitchClass { root: PitchRoot::F, accidental: Accidental { offset: Semitones(0) } },
        PitchClass { root: PitchRoot::G, accidental: Accidental { offset: Semitones(0) } },
        PitchClass { root: PitchRoot::A, accidental: Accidental { offset: Semitones(0) } },
        PitchClass { root: PitchRoot::B, accidental: Accidental { offset: Semitones(0) } },
    ];
    proof {
        assert forall|pc: PitchClass| naturals@.contains(pc) <==> pc_natural(pc) by {
            if pc_natural(pc) {
                assert(pc.accidental == Accidental { offset: Semitones(0) });
                match pc.root {
                    PitchRoot::C => assert(naturals@[0] == pc),
                    PitchRoot::D => assert(naturals@[1] == pc),
                    PitchRoot::E => assert(naturals@[2] == pc),
                    PitchRoot::F => assert(naturals@[3] == pc),
                    PitchRoot::G => assert(naturals@[4] == pc),
                    PitchRoot::A => assert(naturals@[5] == pc),
                    PitchRoot::B => assert(naturals@[6] == pc),
                }
            }
        }
    }
    naturals
}

/// Selecting the members of a set that fall inside a range.
pub trait InRange<T> {
    /// When scanning the range stays within the scalar range.
    spec fn in_range_req(&self, range: &Dyad<T>) -> bool;

    /// The values derived from this set that lie between the ends of the
    /// range, both included.
    fn in_range(&self, range: &Dyad<T>) -> (r: Vec<T>)
        requires
            self.in_range_req(range),
    ;
}

impl InRange<Pitch> for PitchClassSet {
    open spec fn in_range_req(&self, range: &Dyad<Pitch>) -> bool {
        sorted_distinct(self@) && range.high.octave.octaves_from_c0.0 < i64::MAX
    }

    /// Creates a pitch set from the pitch classes of this set placed in each
    /// octave of the range, keeping the pitches between its two ends.
    fn in_range(&self, range: &Dyad<Pitch>) -> (r: Vec<Pitch>)
        ensures
            sorted_distinct(r@),
            forall|p: Pitch|
                r@.contains(p) <==> (self@.contains(p.class) && pitch_le(range.low, p) && pitch_le(
                    p,
                    range.high,
                )),
    {
        let mut pitches: Vec<Pitch> = Vec::new();
        let mut oc: i64 = range.low.octave.octaves_from_c0.0;
        while oc <= range.high.octave.octaves_from_c0.0
            invariant
                sorted_distinct(self@),
                sorted_distinct(pitches@),
                oc >= range.low.octave.octaves_from_c0.0,
                range.high.octave.octaves_from_c0.0 < i64::MAX,
                forall|p: Pitch|
                    pitches@.contains(p) <==> (self@.contains(p.class) && pitch_le(range.low, p)
                        && pitch_le(p, range.high) && p.octave.octaves_from_c0.0 < oc),
            decreases range.high.octave.octaves_from_c0.0 + 1 - oc,
        {
            let mut idx: usize = 0;
            while idx < self.len()
                invariant
                    idx <= self@.len(),
                    sorted_distinct(self@),
                    sorted_distinct(pitches@),
                    oc <= range.high.octave.octaves_from_c0.0,
                    forall|p: Pitch|
                        pitches@.contains(p) <==> (self@.contains(p.class) && pitch_le(
                            range.low,
                            p,
                        ) && pitch_le(p, range.high) && (p.octave.octaves_from_c0.0 < oc || (
                        p.octave.octaves_from_c0.0 == oc && exists|t: int|
                            0 <= t < idx && self@[t] == p.class))),
                decreases self@.len() - idx,
            {
                let class = self[idx];
                let pitch = Pitch { octave: Octave { octaves_from_c0: Octaves(oc) }, class };
                let ghost old_pitches = pitches@;
                if TotalOrder::le(&range.low, &pitch) && TotalOrder::le(&pitch, &range.high) {
                    set_insert(&mut pitches, pitch);
                }
                proof {
                    assert forall|p: Pitch|
                        pitches@.contains(p) <==> (self@.contains(p.class) && pitch_le(
                            range.low,
                            p,
                        ) && pitch_le(p, range.high) && (p.octave.octaves_from_c0.0 < oc || (
                        p.octave.octaves_from_c0.0 == oc && exists|t: int|
                            0 <= t < idx + 1 && self@[t] == p.class))) by {
                        if pitches@.contains(p) && !old_pitches.contains(p) {
                            assert(p == pitch);
                            assert(self@.contains(p.class)) by {
                                assert(self@[idx as int] == p.class);
                            }
                            assert(self@[idx as int] == p.class);
                        }
                        if self@.contains(p.class) && pitch_le(range.low, p) && pitch_le(
                            p,
                            range.high,
                        ) && p.octave.octaves_from_c0.0 == oc && exists|t: int|
                            0 <= t < idx + 1 && self@[t] == p.class {
                            let t = choose|t: int| 0 <= t < idx + 1 && self@[t] == p.class;
                            if t == idx {
                                assert(p == pitch);
                                assert(pitches@.contains(p));
                            }
                        }
                    }
                }
                idx = idx + 1;
            }
            proof {
                assert forall|p: Pitch|
                    pitches@.contains(p) <==> (self@.contains(p.class) && pitch_le(range.low, p)
                        && pitch_le(p, range.high) && p.octave.octaves_from_c0.0 < oc + 1) by {
                    if self@.contains(p.class) && p.octave.octaves_from_c0.0 == oc {
                        let t = choose|t: int| 0 <= t < self@.len() && self@[t] == p.class;
                        assert(0 <= t < self@.len() && self@[t] == p.class);
                    }
                }
            }
            oc = oc + 1;
        }
        pitches
    }
}

/// The start of the flat side of the tonal classes: B flat, then a perfect
/// fourth up each time.
pub open spec fn flatward_class(k: nat) -> PitchClass
    decreases k,
{
    if k == 0 {
        PitchClass { root: PitchRoot::B, accidental: Accidental { offset: Semitones(-1i64) } }
    } else {
        pc_transpose_spec(flatward_class((k - 1) as nat), perfect_fourth_class())
    }
}

/// The start of the sharp side of the tonal classes: F sharp, then a perfect
/// fifth up each time.
pub open spec fn sharpward_class(k: nat) -> PitchClass
    decreases k,
{
    if k == 0 {
        PitchClass { root: PitchRoot::F, accidental: Accidental { offset: Semitones(1) } }
    } else {
        pc_transpose_spec(sharpward_class((k - 1) as nat), perfect_fifth_class())
    }
}

/// A perfect fourth.
pub open spec fn perfect_fourth_class() -> IntervalClass {
    IntervalClass { root: IntervalRoot::Fourth, semitones: Semitones(5) }
}

/// A perfect fifth.
pub open spec fn perfect_fifth_class() -> IntervalClass {
    IntervalClass { root: IntervalRoot::Fifth, semitones: Semitones(7) }
}

/// Each step along either chain moves the accidental by at most 18
/// semitones, so the offsets stay far inside the scalar range.
proof fn lemma_chain_bounds(k: nat)
    requires
        k <= 0x4000_0000_0000,
    ensures
        -1 - 18 * k <= flatward_class(k).accidental.offset.0 <= 1 + 18 * k,
        -1 - 18 * k <= sharpward_class(k).accidental.offset.0 <= 1 + 18 * k,
    decreases k,
{
    if k > 0 {
        lemma_chain_bounds((k - 1) as nat);
    }
}

/// Whether a pitch class stands among the first `n` classes of either chain.
pub open spec fn tonal_chain_member(pc: PitchClass, n: int) -> bool {
    exists|k: int|
        0 <= k < n && (pc == #[trigger] flatward_class(k as nat) || pc == sharpward_class(k as nat))
}

/// The members of the tonal set at a given depth: the naturals and the
/// first `n` classes of each chain.
pub open spec fn tonal_members(s: Seq<PitchClass>, n: int) -> bool {
    forall|pc: PitchClass| s.contains(pc) <==> (pc_natural(pc) || tonal_chain_member(pc, n))
}

/// All the natural pitch classes plus an amount of flats and sharps based on
/// the depth: B flat and F sharp first, then on by fourths and fifths.
#[verifier::rlimit(100)]
#[verifier::spinoff_prover]
pub fn tonal_pitch_class_set(depth: usize) -> (r: PitchClassSet)
    requires
        depth <= 0x4000_0000_0000,
    ensures
        sorted_distinct(r@),
        tonal_members(r@, depth as int),
{
    let mut set = natural_pitch_class_set();
    let mut dark = PitchClass {
        root: PitchRoot::B,
        accidental: Accidental { offset: Semitones(-1) },
    };
    let mut bright = PitchClass {
        root: PitchRoot::F,
        accidental: Accidental { offset: Semitones(1) },
    };
    let fourth = perfect(IntervalRoot::Fourth);
    let fifth = perfect(IntervalRoot::Fifth);
    let mut j: usize = 0;
    while j < depth
        invariant
            j <= depth,
            depth <= 0x4000_0000_0000,
            fourth == perfect_fourth_class(),
            fifth == perfect_fifth_class(),
            dark == flatward_class(j as nat),
            bright == sharpward_class(j as nat),
            sorted_distinct(set@),
            tonal_members(set@, j as int),
        decreases depth - j,
    {
        let ghost before = set@;
        set_insert(&mut set, dark);
        set_insert(&mut set, bright);
        proof {
            assert forall|pc: PitchClass|
                set@.contains(pc) <==> (pc_natural(pc) || tonal_chain_member(pc, j + 1)) by {
                if set@.contains(pc) {
                    if before.contains(pc) {
                        if !pc_natural(pc) {
                            assert(tonal_chain_member(pc, j as int));
                            let k = choose|k: int|
                                0 <= k < j && (pc == #[trigger] flatward_class(k as nat) || pc
                                    == sharpward_class(k as nat));
                            assert(0 <= k < j + 1 && (pc == flatward_class(k as nat) || pc
                                == sharpward_class(k as nat)));
                            assert(tonal_chain_member(pc, j + 1));
                        }
                    } else {
                        assert(pc == dark || pc == bright);
                        assert(0 <= j < j + 1 && (pc == flatward_class(j as nat) || pc
                            == sharpward_class(j as nat)));
                        assert(tonal_chain_member(pc, j + 1));
                    }
                }
                if pc_natural(pc) {
                    assert(before.contains(pc));
                    assert(set@.contains(pc));
                }
                if tonal_chain_member(pc, j + 1) {
                    let k = choose|k: int|
                        0 <= k < j + 1 && (pc == #[trigger] flatward_class(k as nat) || pc
                            == sharpward_class(k as nat));
                    if k < j {
                        assert(tonal_chain_member(pc, j as int));
                        assert(before.contains(pc));
                    } else {
                        assert(pc == flatward_class(j as nat) || pc == sharpward_class(j as nat));
                    }
                    assert(set@.contains(pc));
                }
            }
            assert(tonal_members(set@, j + 1));
            lemma_chain_bounds(j as nat);
            lemma_chain_bounds((j + 1) as nat);
            assert(pc_transpose_req(dark, fourth));
            assert(pc_transpose_req(bright, fifth));
        }
        let next_dark = dark.transposed_by(&fourth);
        let next_bright = bright.transposed_by(&fifth);
        proof {
            assert(next_dark == flatward_class((j + 1) as nat));
            assert(next_bright == sharpward_class((j + 1) as nat));
        }
        dark = next_dark;
        bright = next_bright;
        j = j + 1;
    }
    set
}

/// The semitone size of the interval between two pitches, the pair taken in
/// its natural order.
pub open spec fn pitch_pair_distance(p: Pitch, q: Pitch) -> int {
    ivl_semis(interval_of_dyad(dyad_from_spec(p, q)))
}

/// The summed semitone distance from a pitch to each pitch of a sequence.
pub open spec fn distance_sum(s: Seq<Pitch>, p: Pitch) -> int
    decreases s.len(),
{
    if s.len() == 0 {
        0
    } else {
        distance_sum(s.drop_last(), p) + pitch_pair_distance(p, s.last())
    }
}

/// When every distance and every partial sum stays in the scalar range.
pub open spec fn distance_sum_fits(s: Seq<Pitch>, p: Pitch) -> bool
    decreases s.len(),
{
    if s.len() == 0 {
        true
    } else {
        &&& distance_sum_fits(s.drop_last(), p)
        &&& fits_scalar(pitch_pair_distance(p, s.last()))
        &&& fits_scalar(distance_sum(s, p))
    }
}

/// A prefix of a sequence whose distances fit also has fitting distances.
proof fn lemma_distance_prefix(s: Seq<Pitch>, p: Pitch, i: int)
    requires
        distance_sum_fits(s, p),
        0 <= i <= s.len(),
    ensures
        distance_sum_fits(s.take(i), p),
    decreases s.len() - i,
{
    if i == s.len() {
        assert(s.take(i) =~= s);
    } else {
        assert(s.take(i) =~= s.drop_last().take(i));
        lemma_distance_prefix(s.drop_last(), p, i);
    }
}

/// The summed semitone distance of all pitches in a set to a given pitch;
/// the longest representable distance stands in for an empty set.
pub fn distance_of_pitch_set_to_pitch(set: &PitchSet, pitch: Pitch) -> (r: Semitones)
    requires
        distance_sum_fits(set@, pitch),
    ensures
        r.0 == if set@.len() == 0 {
            i64::MAX as int
        } else {
            distance_sum(set@, pitch)
        },
{
    if set.len() == 0 {
        return Semitones(i64::MAX);
    }
    let mut total = Semitones(0);
    let mut idx: usize = 0;
    while idx < set.len()
        invariant
            idx <= set@.len(),
            distance_sum_fits(set@, pitch),
            total.0 == distance_sum(set@.take(idx as int), pitch),
        decreases set@.len() - idx,
    {
        proof {
            lemma_distance_prefix(set@, pitch, idx + 1);
            assert(set@.take(idx + 1).drop_last() =~= set@.take(idx as int));
            assert(set@.take(idx + 1).last() == set@[idx as int]);
        }
        let dyad = PitchDyad::from((pitch, set[idx]));
        let interval = Interval::from(&dyad);
        let d = interval.in_semitones();
        total = total + d;
        idx = idx + 1;
    }
    proof {
        assert(set@.take(set@.len() as int) =~= set@);
    }
    total
}

impl TransposedBy<&IntervalClass> for PitchClassSet {
    open spec fn transposed_by_req(&self, delta: &IntervalClass) -> bool {
        sorted_distinct(self@) && forall|i: int|
            0 <= i < self@.len() ==> pc_transpose_req(#[trigger] self@[i], *delta)
    }

    /// Transposes a whole pitch class set, class by class.
    fn transposed_by(&self, delta: &IntervalClass) -> (r: Self)
        ensures
            sorted_distinct(r@),
            forall|y: PitchClass|
                r@.contains(y) <==> exists|x: PitchClass|
                    self@.contains(x) && y == pc_transpose_spec(x, *delta),
    {
        let mut r: PitchClassSet = Vec::new();
        let mut idx: usize = 0;
        while idx < self.len()
            invariant
                idx <= self@.len(),
                sorted_distinct(self@),
                forall|i: int| 0 <= i < self@.len() ==> pc_transpose_req(#[trigger] self@[i], *delta),
                sorted_distinct(r@),
                forall|y: PitchClass|
                    r@.contains(y) <==> exists|t: int|
                        0 <= t < idx && y == pc_transpose_spec(#[trigger] self@[t], *delta),
            decreases self@.len() - idx,
        {
            let moved = self[idx].transposed_by(delta);
            set_insert(&mut r, moved);
            proof {
                assert forall|y: PitchClass|
                    r@.contains(y) <==> exists|t: int|
                        0 <= t < idx + 1 && y == pc_transpose_spec(#[trigger] self@[t], *delta) by {
                    if y == moved {
                        assert(y == pc_transpose_spec(self@[idx as int], *delta));
                    }
                }
            }
            idx = idx + 1;
        }
        proof {
            assert forall|y: PitchClass|
                r@.contains(y) <==> exists|x: PitchClass|
                    self@.contains(x) && y == pc_transpose_spec(x, *delta) by {
                if r@.contains(y) {
                    let t = choose|t: int|
                        0 <= t < self@.len() && y == pc_transpose_spec(#[trigger] self@[t], *delta);
                    assert(self@.contains(self@[t]));
                }
                if exists|x: PitchClass| self@.contains(x) && y == pc_transpose_spec(x, *delta) {
                    let x = choose|x: PitchClass|
                        self@.contains(x) && y == pc_transpose_spec(x, *delta);
                    let t = choose|t: int| 0 <= t < self@.len() && self@[t] == x;
                    assert(y == pc_transpose_spec(self@[t], *delta));
                }
            }
        }
        r
    }
}

impl TransposedBy<&Interval> for PitchSet {
    open spec fn transposed_by_req(&self, delta: &Interval) -> bool {
        sorted_distinct(self@) && forall|i: int|
            0 <= i < self@.len() ==> pitch_transpose_req(#[trigger] self@[i], *delta)
    }

    /// Transposes a whole pitch set, pitch by pitch.
    fn transposed_by(&self, delta: &Interval) -> (r: Self)
        ensures
            sorted_distinct(r@),
            forall|y: Pitch|
                r@.contains(y) <==> exists|x: Pitch|
                    self@.contains(x) && y == pitch_transpose_spec(x, *delta),
    {
        let mut r: PitchSet = Vec::new();
        let mut idx: usize = 0;
        while idx < self.len()
            invariant
                idx <= self@.len(),
                sorted_distinct(self@),
                forall|i: int|
                    0 <= i < self@.len() ==> pitch_transpose_req(#[trigger] self@[i], *delta),
                sorted_distinct(r@),
                forall|y: Pitch|
                    r@.contains(y) <==> exists|t: int|
                        0 <= t < idx && y == pitch_transpose_spec(#[trigger] self@[t], *delta),
            decreases self@.len() - idx,
        {
            let moved = self[idx].transposed_by(delta);
            set_insert(&mut r, moved);
            proof {
                assert forall|y: Pitch|
                    r@.contains(y) <==> exists|t: int|
                        0 <= t < idx + 1 && y == pitch_transpose_spec(#[trigger] self@[t], *delta) by {
                    if y == moved {
                        assert(y == pitch_transpose_spec(self@[idx as int], *delta));
                    }
                }
            }
            idx = idx + 1;
        }
        proof {
            assert forall|y: Pitch|
                r@.contains(y) <==> exists|x: Pitch|
                    self@.contains(x) && y == pitch_transpose_spec(x, *delta) by {
                if r@.contains(y) {
                    let t = choose|t: int|
                        0 <= t < self@.len() && y == pitch_transpose_spec(
                            #[trigger] self@[t],
                            *delta,
                        );
                    assert(self@.contains(self@[t]));
                }
                if exists|x: Pitch| self@.contains(x) && y == pitch_transpose_spec(x, *delta) {
                    let x = choose|x: Pitch| self@.contains(x) && y == pitch_transpose_spec(x, *delta);
                    let t = choose|t: int| 0 <= t < self@.len() && self@[t] == x;
                    assert(y == pitch_transpose_spec(self@[t], *delta));
                }
            }
        }
        r
    }
}

} // verus!
