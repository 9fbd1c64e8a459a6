//! Canonical unordered pairs of comparable values.
mod dyad;
mod dyad_set;

pub use self::dyad::{dyad_from_spec, dyad_wf, lemma_dyad_from_symmetric, lemma_dyad_from_wf, Dyad};
pub use self::dyad_set::DyadSet;
