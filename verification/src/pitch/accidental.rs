use crate::arith::fits_scalar;
use crate::text::repeat_str;
use crate::vertical::{Semitones, TransposedBy};
use crate::Scalar;
use vstd::prelude::*;

verus! {

/// An accidental: a signed semitone offset applied to a pitch root. Any
/// offset is allowed, double flats and sharps and beyond.
#[derive(Copy, Clone, PartialEq, Eq, Structural, Hash, Debug)]
pub struct Accidental {
    pub offset: Semitones,
}

/// Whether a character is an accidental glyph.
pub open spec fn glyph_ok(c: char) -> bool {
    c == '𝄫' || c == '♭' || c == '♮' || c == '♯' || c == '𝄪'
}

/// The semitone value of an accidental glyph.
pub open spec fn glyph_semis(c: char) -> int {
    if c == '𝄫' {
        -2
    } else if c == '♭' {
        -1
    } else if c == '♮' {
        0
    } else if c == '♯' {
        1
    } else if c == '𝄪' {
        2
    } else {
        0
    }
}

/// The summed semitone value of a run of accidental glyphs.
pub open spec fn glyph_sum(s: Seq<char>) -> int
    decreases s.len(),
{
    if s.len() == 0 {
        0
    } else {
        glyph_sum(s.drop_last()) + glyph_semis(s.last())
    }
}

/// Whether every character of a text is an accidental glyph.
pub open spec fn glyphs_ok(s: Seq<char>) -> bool {
    forall|i: int| 0 <= i < s.len() ==> glyph_ok(#[trigger] s[i])
}

/// The displayed text of an accidental: single glyphs for offsets between
/// minus two and two, repeated flats or sharps beyond.
pub open spec fn accidental_text(offset: int) -> Seq<char> {
    if offset == -2 {
        seq!['𝄫']
    } else if offset == -1 {
        seq!['♭']
    } else if offset == 0 {
        seq!['♮']
    } else if offset == 1 {
        seq!['♯']
    } else if offset == 2 {
        seq!['𝄪']
    } else if offset <= -3 {
        Seq::new((-offset) as nat, |i: int| '♭')
    } else {
        Seq::new(offset as nat, |i: int| '♯')
    }
}

/// What parsing an accidental text gives: the summed value of its glyphs,
/// or a failure on any other character or an offset out of scalar range.
pub open spec fn accidental_parse(s: Seq<char>) -> Result<Accidental, &'static str> {
    if glyphs_ok(s) && fits_scalar(glyph_sum(s)) {
        Ok(Accidental { offset: Semitones(glyph_sum(s) as Scalar) })
    } else {
        Err("Could not parse Accidental")
    }
}

/// The sum of a single glyph is its value.
proof fn lemma_glyph_sum_singleton(c: char)
    ensures
        glyph_sum(seq![c]) == glyph_semis(c),
{
    assert(glyph_sum(Seq::<char>::empty()) == 0);
    assert(seq![c].drop_last() =~= Seq::<char>::empty());
    assert(seq![c].last() == c);
    assert(glyph_sum(seq![c]) == glyph_sum(seq![c].drop_last()) + glyph_semis(c));
}

/// The sum of a repeated glyph is the glyph's value that many times.
proof fn lemma_repeat_glyph_sum(c: char, n: nat)
    ensures
        glyph_sum(Seq::new(n, |i: int| c)) == n * glyph_semis(c),
    decreases n,
{
    let g = glyph_semis(c);
    if n == 0 {
        assert(n * g == 0) by (nonlinear_arith)
            requires
                n == 0,
        ;
    } else {
        lemma_repeat_glyph_sum(c, (n - 1) as nat);
        assert(Seq::new(n, |i: int| c).drop_last() =~= Seq::new((n - 1) as nat, |i: int| c));
        assert(Seq::new(n, |i: int| c).last() == c);
        assert(n * g == (n - 1) * g + g) by (nonlinear_arith);
    }
}

/// Displaying any accidental and parsing the text back returns the same
/// accidental.
pub proof fn lemma_accidental_display_parse_round_trip(a: Accidental)
    ensures
        accidental_parse(accidental_text(a.offset.0 as int)) == Ok::<Accidental, &'static str>(a),
{
    let o = a.offset.0 as int;
    let text = accidental_text(o);
    if o == -2 {
        lemma_glyph_sum_singleton('𝄫');
    } else if o == -1 {
        lemma_glyph_sum_singleton('♭');
    } else if o == 0 {
        lemma_glyph_sum_singleton('♮');
    } else if o == 1 {
        lemma_glyph_sum_singleton('♯');
    } else if o == 2 {
        lemma_glyph_sum_singleton('𝄪');
    } else if o <= -3 {
        lemma_repeat_glyph_sum('♭', (-o) as nat);
        assert(((-o) as nat) * glyph_semis('♭') == o) by (nonlinear_arith)
            requires
                o <= -3 && glyph_semis('♭') == -1,
        ;
    } else {
        lemma_repeat_glyph_sum('♯', o as nat);
        assert((o as nat) * glyph_semis('♯') == o) by (nonlinear_arith)
            requires
                o >= 3 && glyph_semis('♯') == 1,
        ;
    }
    assert(glyph_sum(text) == o);
    assert(glyphs_ok(text));
    assert(a == Accidental { offset: Semitones(glyph_sum(text) as Scalar) });
}

impl Accidental {
    /// The text of the accidental, in glyphs.
    pub fn to_string(&self) -> (s: String)
        ensures
            s@ == accidental_text(self.offset.0 as int),
    {
        let o = self.offset.0;
        proof {
            reveal_strlit("𝄫");
            reveal_strlit("♭");
            reveal_strlit("♮");
            reveal_strlit("♯");
            reveal_strlit("𝄪");
        }
        if o == -2 {
            let s = String::from_str("𝄫");
            proof {
                assert(s@ =~= accidental_text(o as int));
            }
            s
        } else if o == -1 {
            let s = String::from_str("♭");
            proof {
                assert(s@ =~= accidental_text(o as int));
            }
            s
        } else if o == 0 {
            let s = String::from_str("♮");
            proof {
                assert(s@ =~= accidental_text(o as int));
            }
            s
        } else if o == 1 {
            let s = String::from_str("♯");
            proof {
                assert(s@ =~= accidental_text(o as int));
            }
            s
        } else if o == 2 {
            let s = String::from_str("𝄪");
            proof {
                assert(s@ =~= accidental_text(o as int));
            }
            s
        } else if o < 0 {
            let mag: u64 = ((-(o + 1)) as u64) + 1;
            let s = repeat_str("♭", mag);
            proof {
                assert(s@ =~= accidental_text(o as int));
            }
            s
        } else {
            let s = repeat_str("♯", o as u64);
            proof {
                assert(s@ =~= accidental_text(o as int));
            }
            s
        }
    }
}

impl core::convert::TryFrom<&str> for Accidental {
    type Error = &'static str;

    /// Parses a run of accidental glyphs into their summed offset.
    fn try_from(value: &str) -> Result<Accidental, &'static str> {
        let n = value.unicode_len();
        // Summed in a wider type; only the final offset needs to fit.
        let mut offset: i128 = 0;
        let mut i: usize = 0;
        while i < n
            invariant
                i <= n,
                n == value@.len(),
                glyphs_ok(value@.take(i as int)),
                offset == glyph_sum(value@.take(i as int)),
                -2 * i <= offset <= 2 * i,
            decreases n - i,
        {
            let c = value.get_char(i);
            let d: i128 = if c == '𝄫' {
                -2
            } else if c == '♭' {
                -1
            } else if c == '♮' {
                0
            } else if c == '♯' {
                1
            } else if c == '𝄪' {
                2
            } else {
                proof {
                    assert(!glyph_ok(value@[i as int]));
                }
                return Err("Could not parse Accidental");
            };
            proof {
                assert(value@.take(i + 1).drop_last() =~= value@.take(i as int));
                assert(value@.take(i + 1).last() == value@[i as int]);
            }
            offset = offset + d;
            i = i + 1;
        }
        proof {
            assert(value@.take(n as int) =~= value@);
        }
        if offset < i64::MIN as i128 || offset > i64::MAX as i128 {
            return Err("Could not parse Accidental");
        }
        Ok(Accidental { offset: Semitones(offset as i64) })
    }
}

impl vstd::std_specs::convert::TryFromSpecImpl<&str> for Accidental {
    open spec fn obeys_try_from_spec() -> bool {
        true
    }

    open spec fn try_from_spec(v: &str) -> Result<Accidental, &'static str> {
        accidental_parse(v@)
    }
}

impl TransposedBy<Semitones> for Accidental {
    open spec fn transposed_by_req(&self, delta: Semitones) -> bool {
        fits_scalar(self.offset.0 + delta.0)
    }

    fn transposed_by(&self, delta: Semitones) -> (r: Self)
        ensures
            r.offset.0 == self.offset.0 + delta.0,
    {
        Accidental { offset: self.offset + delta }
    }
}

} // verus!
