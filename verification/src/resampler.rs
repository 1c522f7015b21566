//! Linear-interpolation resampler over fixed-point samples.
//!
//! Samples are signed fixed-point values (`i32`); the pitch factor is a
//! positive count of tenths, so a factor of one is `10`.  For an input of
//! length `L` and a factor `f = factor_tenths / 10`, the output has exactly
//! `floor(L / f)` samples: output index `i` reads the fractional source
//! position `i * f`, whose integer part picks the left neighbor and whose
//! fractional part (in tenths) blends it with the right neighbor.  A neighbor
//! beyond the end of the input contributes zero, so the tail degrades to
//! interpolation against silence rather than faulting.

use vstd::prelude::*;
use vstd::arithmetic::div_mod::{
    lemma_basic_div, lemma_div_is_ordered, lemma_div_multiples_vanish,
    lemma_div_multiples_vanish_fancy, lemma_div_pos_is_pos, lemma_fundamental_div_mod,
    lemma_mod_division_less_than_divisor, lemma_mod_multiples_basic,
};
use vstd::arithmetic::mul::{
    lemma_mul_inequality, lemma_mul_nonnegative, lemma_mul_strict_inequality,
};

verus! {

/// Value interpolated between `s1` and `s2` at a fractional offset of
/// `frt` tenths, the fixed-point counterpart of `s1 + frac * (s2 - s1)`,
/// with the scaled fraction truncated toward zero.
pub open spec fn lerp(s1: int, s2: int, frt: int) -> int {
    if s2 >= s1 {
        s1 + (frt * (s2 - s1)) / 10
    } else {
        s1 - (frt * (s1 - s2)) / 10
    }
}

/// The sample at `idx`, or zero when `idx` lies outside the input.
pub open spec fn sample_at(s: Seq<i32>, idx: int) -> int {
    if 0 <= idx < s.len() {
        s[idx] as int
    } else {
        0
    }
}

/// Integer part of the fractional source position `i * factor_tenths / 10`.
pub open spec fn src_index(i: int, factor_tenths: int) -> int {
    (i * factor_tenths) / 10
}

/// Fractional part of the source position, in tenths.
pub open spec fn frac_tenths(i: int, factor_tenths: int) -> int {
    (i * factor_tenths) % 10
}

/// Output length of a resampling pass: `floor(len / f)` for the factor
/// `f = factor_tenths / 10`, written over integers as `10 * len` divided
/// by `factor_tenths`.
pub open spec fn resampled_len(len: int, factor_tenths: int) -> int
    recommends
        1 <= factor_tenths,
{
    (10 * len) / factor_tenths
}

/// The value the resampler produces at output index `i`.
pub open spec fn resampled_at(s: Seq<i32>, factor_tenths: int, i: int) -> int {
    lerp(
        sample_at(s, src_index(i, factor_tenths)),
        sample_at(s, src_index(i, factor_tenths) + 1),
        frac_tenths(i, factor_tenths),
    )
}

/// A fraction of `frt` tenths of a non-negative distance `d` is between
/// zero and `d`.
proof fn lemma_scaled_frac_bounds(frt: int, d: int)
    requires
        0 <= frt < 10,
        0 <= d,
    ensures
        0 <= (frt * d) / 10 <= d,
{
    lemma_mul_nonnegative(frt, d);
    lemma_div_pos_is_pos(frt * d, 10);
    lemma_mul_inequality(frt, 9, d);
    lemma_mul_inequality(9, 10, d);
    lemma_div_is_ordered(frt * d, 9 * d, 10);
    lemma_div_is_ordered(9 * d, 10 * d, 10);
    lemma_div_multiples_vanish(d, 10);
}

/// Interpolate between two samples at an offset of `frt` tenths.  The result
/// always lies between the two samples, so it stays in range.
fn lerp_exec(s1: i32, s2: i32, frt: u32) -> (r: i32)
    requires
        frt < 10,
    ensures
        r as int == lerp(s1 as int, s2 as int, frt as int),
        i32::MIN <= lerp(s1 as int, s2 as int, frt as int) <= i32::MAX,
{
    if s2 >= s1 {
        let d: u64 = (s2 as i64 - s1 as i64) as u64;
        proof {
            lemma_scaled_frac_bounds(frt as int, d as int);
        }
        let t: u64 = frt as u64 * d / 10;
        (s1 as i64 + t as i64) as i32
    } else {
        let d: u64 = (s1 as i64 - s2 as i64) as u64;
        proof {
            lemma_scaled_frac_bounds(frt as int, d as int);
        }
        let t: u64 = frt as u64 * d / 10;
        (s1 as i64 - t as i64) as i32
    }
}

/// Within the output range the source position stays inside the input:
/// `i * factor_tenths` is below `10 * len`, so the left neighbor index is
/// always a valid input index.
proof fn lemma_pos_bound(len: int, factor_tenths: int, i: int)
    requires
        1 <= factor_tenths,
        0 <= i < resampled_len(len, factor_tenths),
    ensures
        0 <= i * factor_tenths < 10 * len,
        0 <= (i * factor_tenths) / 10 < len,
{
    let ft: int = factor_tenths;
    let q: int = (10 * len) / ft;
    lemma_mul_nonnegative(i, ft);
    lemma_div_pos_is_pos(i * ft, 10);
    lemma_fundamental_div_mod(10 * len, ft);
    lemma_mod_division_less_than_divisor(10 * len, ft);
    assert(ft * q <= 10 * len);
    lemma_mul_strict_inequality(i, q, ft);
    assert(i * ft < q * ft);
    assert(i * ft < 10 * len);
    // len >= 1 here: a zero-length input has an empty output.
    if len < 1 {
        lemma_basic_div(10 * len, ft);
    }
    lemma_div_is_ordered(i * ft, 10 * len - 1, 10);
    lemma_div_multiples_vanish_fancy(len - 1, 9, 10);
    assert(10 * (len - 1) + 9 == 10 * len - 1);
}

/// Resample `samples` by the pitch factor `factor_tenths / 10` using linear
/// interpolation.  The output holds `floor(len / factor)` samples, each the
/// interpolated value at its fractional source position; the pass never
/// fails, it only degrades to zero-padding at the tail.
pub fn resample(samples: &Vec<i32>, factor_tenths: u32) -> (out: Vec<i32>)
    requires
        1 <= factor_tenths,
        10 * samples@.len() <= usize::MAX,
    ensures
        out@.len() == resampled_len(samples@.len() as int, factor_tenths as int),
        forall|i: int|
            0 <= i < out@.len() ==> out@[i] as int == resampled_at(
                samples@,
                factor_tenths as int,
                i,
            ),
{
    let len: usize = samples.len();
    let out_len: usize = len * 10 / (factor_tenths as usize);
    let mut out: Vec<i32> = Vec::new();
    let mut i: usize = 0;
    while i < out_len
        invariant
            len == samples@.len(),
            1 <= factor_tenths,
            10 * len <= usize::MAX,
            out_len == resampled_len(len as int, factor_tenths as int),
            i <= out_len,
            out@.len() == i,
            forall|j: int|
                0 <= j < i ==> out@[j] as int == resampled_at(samples@, factor_tenths as int, j),
        decreases out_len - i,
    {
        proof {
            lemma_pos_bound(len as int, factor_tenths as int, i as int);
        }
        let pos: usize = i * (factor_tenths as usize);
        let idx: usize = pos / 10;
        let frt: u32 = (pos % 10) as u32;
        let s1: i32 = if idx < len {
            samples[idx]
        } else {
            0
        };
        let s2: i32 = if idx + 1 < len {
            samples[idx + 1]
        } else {
            0
        };
        let v: i32 = lerp_exec(s1, s2, frt);
        out.push(v);
        i = i + 1;
    }
    out
}

/// At the identity factor the resampler is the identity: the output length
/// equals the input length and every output value is the input value at the
/// same index.
pub proof fn lemma_identity_factor(s: Seq<i32>)
    ensures
        resampled_len(s.len() as int, 10) == s.len(),
        forall|i: int| 0 <= i < s.len() ==> resampled_at(s, 10, i) == s[i] as int,
{
    lemma_div_multiples_vanish(s.len() as int, 10);
    assert forall|i: int| 0 <= i < s.len() implies resampled_at(s, 10, i) == s[i] as int by {
        lemma_div_multiples_vanish(i, 10);
        assert(i * 10 == 10 * i);
        lemma_mod_multiples_basic(i, 10);
        assert(src_index(i, 10) == i);
        assert(frac_tenths(i, 10) == 0);
        assert(lerp(s[i] as int, sample_at(s, i + 1), 0) == s[i] as int) by {
            lemma_scaled_frac_bounds(0, if sample_at(s, i + 1) >= s[i] as int {
                sample_at(s, i + 1) - s[i] as int
            } else {
                s[i] as int - sample_at(s, i + 1)
            });
        }
    }
}

/// Any output sequence that meets the resampler's contract at the identity
/// factor is the input sequence itself: same length, same values.
pub proof fn lemma_resample_identity(s: Seq<i32>, out: Seq<i32>)
    requires
        out.len() == resampled_len(s.len() as int, 10),
        forall|i: int| 0 <= i < out.len() ==> out[i] as int == resampled_at(s, 10, i),
    ensures
        out == s,
{
    lemma_identity_factor(s);
    assert forall|i: int| 0 <= i < s.len() implies out[i] == s[i] by {
        assert(out[i] as int == resampled_at(s, 10, i));
    }
    assert(out =~= s);
}

/// Within the output range the source index never leaves the input: an
/// out-of-bounds read is impossible, only the right-hand neighbor can fall
/// off the end.
pub proof fn lemma_src_index_in_bounds(len: int, factor_tenths: int, i: int)
    requires
        1 <= factor_tenths,
        0 <= i < resampled_len(len, factor_tenths),
    ensures
        0 <= src_index(i, factor_tenths) < len,
{
    lemma_pos_bound(len, factor_tenths, i);
}

/// When the right-hand neighbor lies at or beyond the end of the input, the
/// missing sample contributes zero: the value interpolates against silence.
pub proof fn lemma_boundary_zero_padding(s: Seq<i32>, factor_tenths: int, i: int)
    requires
        1 <= factor_tenths,
        0 <= i,
        src_index(i, factor_tenths) + 1 >= s.len(),
    ensures
        resampled_at(s, factor_tenths, i) == lerp(
            sample_at(s, src_index(i, factor_tenths)),
            0,
            frac_tenths(i, factor_tenths),
        ),
{
    lemma_mul_nonnegative(i, factor_tenths);
    lemma_div_pos_is_pos(i * factor_tenths, 10);
    assert(sample_at(s, src_index(i, factor_tenths) + 1) == 0);
}

} // verus!
