//! A music-theory calculation engine: pitches and intervals in Western tonal
//! notation, with exact arithmetic on them (addition, subtraction,
//! transposition, inversion and quality classification).
//!
//! Two interacting moduli drive the design: seven diatonic letters and twelve
//! chromatic semitones. Every distance is kept as its own scalar type
//! ([`vertical::Steps`], [`vertical::Semitones`], [`vertical::Octaves`]) and
//! the composite types ([`pitch::Pitch`], [`interval::Interval`]) combine a
//! class with an octave count so that the two moduli stay consistent under
//! wraparound, octave carry and sign inversion.
use vstd::prelude::*;

pub mod arith;
pub mod harmony;
pub mod interval;
pub mod order;
pub mod pitch;
pub mod text;
pub mod vertical;

verus! {

/// The signed integer type wrapped by every scalar quantity.
pub type Scalar = i64;

} // verus!
