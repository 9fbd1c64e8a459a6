//! Integer helpers shared by the scalar and composite types.
//!
//! The engine uses two flavours of division by a positive constant: Euclidean
//! remainders (for wrapping roots into their seven-step cycle) and ordinary
//! truncating division (for deriving octave counts from step or semitone
//! distances). Spec-level `%` and `/` are Euclidean, so the truncating
//! variants get their own spec functions here, and the executable helpers
//! avoid signed division by computing on magnitudes.
use vstd::arithmetic::div_mod::{
    lemma_div_nonincreasing, lemma_div_pos_is_pos, lemma_fundamental_div_mod,
    lemma_fundamental_div_mod_converse_mod, lemma_mod_bound,
};
use vstd::prelude::*;

verus! {

/// Whether a mathematical integer fits in the scalar type.
pub open spec fn fits_scalar(n: int) -> bool {
    i64::MIN <= n <= i64::MAX
}

/// Truncating division by a positive divisor, as Rust's `/` computes it.
pub open spec fn tdiv(n: int, d: int) -> int {
    if n >= 0 {
        n / d
    } else {
        -((-n) / d)
    }
}

/// Truncating remainder by a positive divisor, as Rust's `%` computes it.
pub open spec fn tmod(n: int, d: int) -> int {
    if n >= 0 {
        n % d
    } else {
        -((-n) % d)
    }
}

/// Truncating division `n / d` for a small positive divisor.
pub fn div_trunc(n: i64, d: i64) -> (q: i64)
    requires
        2 <= d,
    ensures
        q == tdiv(n as int, d as int),
{
    if n >= 0 {
        ((n as u64) / (d as u64)) as i64
    } else {
        let k: u64 = (-(n + 1)) as u64;
        let q: u64 = (k + 1) / (d as u64);
        assert(k + 1 == -(n as int));
        proof {
            let x = (k + 1) as int;
            let di = d as int;
            lemma_div_pos_is_pos(x, di);
            lemma_fundamental_div_mod(x, di);
            lemma_mod_bound(x, di);
            assert(2 * (x / di) <= x) by (nonlinear_arith)
                requires
                    x == di * (x / di) + x % di,
                    x % di >= 0,
                    di >= 2,
                    x / di >= 0,
            ;
        }
        -(q as i64)
    }
}

/// Truncating remainder `n % d` for a small positive divisor.
pub fn mod_trunc(n: i64, d: i64) -> (r: i64)
    requires
        2 <= d,
    ensures
        r == tmod(n as int, d as int),
{
    if n >= 0 {
        ((n as u64) % (d as u64)) as i64
    } else {
        let k: u64 = (-(n + 1)) as u64;
        let s: u64 = (k + 1) % (d as u64);
        assert(k + 1 == -(n as int));
        proof {
            lemma_mod_bound(-(n as int), d as int);
        }
        -(s as i64)
    }
}

/// Truncating division `n / d` on the wide intermediate type.
pub fn div_trunc_wide(n: i128, d: i128) -> (q: i128)
    requires
        2 <= d,
    ensures
        q == tdiv(n as int, d as int),
{
    if n >= 0 {
        ((n as u128) / (d as u128)) as i128
    } else {
        let k: u128 = (-(n + 1)) as u128;
        let q: u128 = (k + 1) / (d as u128);
        assert(k + 1 == -(n as int));
        proof {
            let x = (k + 1) as int;
            let di = d as int;
            lemma_div_pos_is_pos(x, di);
            lemma_fundamental_div_mod(x, di);
            lemma_mod_bound(x, di);
            assert(2 * (x / di) <= x) by (nonlinear_arith)
                requires
                    x == di * (x / di) + x % di,
                    x % di >= 0,
                    di >= 2,
                    x / di >= 0,
            ;
        }
        -(q as i128)
    }
}

/// Truncating remainder `n % d` on the wide intermediate type.
pub fn mod_trunc_wide(n: i128, d: i128) -> (r: i128)
    requires
        2 <= d,
    ensures
        r == tmod(n as int, d as int),
{
    if n >= 0 {
        ((n as u128) % (d as u128)) as i128
    } else {
        let k: u128 = (-(n + 1)) as u128;
        let s: u128 = (k + 1) % (d as u128);
        assert(k + 1 == -(n as int));
        proof {
            lemma_mod_bound(-(n as int), d as int);
        }
        -(s as i128)
    }
}

/// Euclidean remainder `n % d` (always in `[0, d)`) for a small positive
/// divisor.
pub fn mod_euclid(n: i64, d: i64) -> (r: i64)
    requires
        2 <= d,
    ensures
        r == (n as int) % (d as int),
        0 <= r < d,
{
    proof {
        lemma_mod_bound(n as int, d as int);
    }
    if n >= 0 {
        ((n as u64) % (d as u64)) as i64
    } else {
        let k: u64 = (-(n + 1)) as u64;
        let s: u64 = k % (d as u64);
        proof {
            let ki = k as int;
            let di = d as int;
            let ni = n as int;
            lemma_mod_bound(ki, di);
            lemma_fundamental_div_mod(ki, di);
            assert(ni == di * (-(ki / di) - 1) + (di - 1 - ki % di)) by (nonlinear_arith)
                requires
                    ki == di * (ki / di) + ki % di,
                    ni == -ki - 1,
            ;
            lemma_fundamental_div_mod_converse_mod(ni, di, -(ki / di) - 1, di - 1 - ki % di);
        }
        (d - 1) - (s as i64)
    }
}

} // verus!
