//! Integer math primitives shared by the whole signal pipeline: a
//! precision-preserving percentage scaler and Q16 fixed-point multiplies.

use vstd::prelude::*;

verus! {

/// Rust's round-toward-zero division, stated over mathematical integers.
/// Verus's own `/` on `int` is Euclidean, so the two differ on negative
/// dividends; every executable signed division below follows this one.
pub open spec fn tdiv(a: int, b: int) -> int {
    if a >= 0 {
        a / b
    } else {
        -((-a) / b)
    }
}

/// The scaled percentage of `sample`, exactly as the executable pipeline
/// computes it: scale up by 1000, divide by 100, multiply by the
/// percentage, scale back down by 1000.
pub open spec fn scaled_pct(sample: int, pct: int) -> int {
    tdiv(tdiv(sample * 1000, 100) * pct, 1000)
}

/// For a dividend that is an exact multiple, truncating division is exact.
pub proof fn lemma_tdiv_exact(a: int, b: int)
    requires
        b > 0,
    ensures
        tdiv(a * b, b) == a,
{
    if a >= 0 {
        assert(a * b >= 0) by (nonlinear_arith)
            requires
                a >= 0 && b > 0,
        ;
        assert(a * b / b == a) by (nonlinear_arith)
            requires
                b > 0,
        ;
    } else {
        assert(a * b < 0) by (nonlinear_arith)
            requires
                a < 0 && b > 0,
        ;
        assert((-(a * b)) == (-a) * b) by (nonlinear_arith);
        assert((-a) * b / b == -a) by (nonlinear_arith)
            requires
                b > 0,
        ;
    }
}

/// The inner scaling step of `scaled_pct` collapses to a multiply by 10.
pub proof fn lemma_scaled_pct_unfold(sample: int, pct: int)
    ensures
        scaled_pct(sample, pct) == tdiv(sample * 10 * pct, 1000),
{
    assert(sample * 1000 == (sample * 10) * 100) by (nonlinear_arith);
    lemma_tdiv_exact(sample * 10, 100);
}

/// Truncating division by a positive divisor can only shrink magnitude.
pub proof fn lemma_tdiv_bound(a: int, b: int, m: int)
    requires
        b > 0,
        -m * b <= a <= m * b,
        0 <= m,
    ensures
        -m <= tdiv(a, b) <= m,
{
    assert((-m) * b == -(m * b)) by (nonlinear_arith);
    if a >= 0 {
        assert(a / b <= m) by (nonlinear_arith)
            requires
                b > 0 && 0 <= a <= m * b,
        ;
        assert(a / b >= 0) by (nonlinear_arith)
            requires
                b > 0 && a >= 0,
        ;
    } else {
        assert((-a) / b <= m) by (nonlinear_arith)
            requires
                b > 0 && 0 <= -a <= m * b,
        ;
        assert((-a) / b >= 0) by (nonlinear_arith)
            requires
                b > 0 && -a >= 0,
        ;
    }
}

/// With a percentage in 0..=100 the scaled percentage of a sample never
/// exceeds the sample's own magnitude and keeps the sample's sign.
pub proof fn lemma_scaled_pct_in_range(sample: int, pct: int)
    requires
        0 <= pct <= 100,
    ensures
        sample >= 0 ==> 0 <= scaled_pct(sample, pct) <= sample,
        sample <= 0 ==> sample <= scaled_pct(sample, pct) <= 0,
{
    let m = if sample >= 0 {
        sample
    } else {
        -sample
    };
    lemma_scaled_pct_unfold(sample, pct);
    assert(-(m * 1000) <= sample * 10 * pct <= m * 1000) by (nonlinear_arith)
        requires
            -m <= sample <= m && 0 <= pct <= 100 && 0 <= m,
    ;
    assert(-m * 1000 == -(m * 1000)) by (nonlinear_arith);
    lemma_tdiv_bound(sample * 10 * pct, 1000, m);
    if sample >= 0 {
        assert(sample * 10 * pct >= 0) by (nonlinear_arith)
            requires
                sample >= 0 && pct >= 0,
        ;
        assert(tdiv(sample * 10 * pct, 1000) >= 0) by {
            assert(sample * 10 * pct / 1000 >= 0) by (nonlinear_arith)
                requires
                    sample * 10 * pct >= 0,
            ;
        };
    }
    if sample <= 0 {
        assert(sample * 10 * pct <= 0) by (nonlinear_arith)
            requires
                sample <= 0 && pct >= 0,
        ;
        if sample * 10 * pct < 0 {
            assert((-(sample * 10 * pct)) / 1000 >= 0) by (nonlinear_arith)
                requires
                    -(sample * 10 * pct) >= 0,
            ;
        }
    }
}

/// A percentage of 100 hands the sample back unchanged, and a percentage of
/// 0 yields silence.
pub proof fn lemma_scaled_pct_endpoints(sample: int)
    ensures
        scaled_pct(sample, 100) == sample,
        scaled_pct(sample, 0) == 0,
{
    lemma_scaled_pct_unfold(sample, 100);
    lemma_scaled_pct_unfold(sample, 0);
    assert(sample * 10 * 100 == sample * 1000) by (nonlinear_arith);
    lemma_tdiv_exact(sample, 1000);
    assert(sample * 10 * 0 == 0) by (nonlinear_arith);
}

/// Scale `sample` by a percentage while keeping the sample's precision:
/// the sample is widened by a factor 1000 before the percentage is taken
/// and narrowed again afterwards.
pub fn percentage(sample: i16, pct: i16) -> (r: i16)
    requires
        -1000 <= pct <= 1000,
    ensures
        r == scaled_pct(sample as int, pct as int) as i16,
        0 <= pct <= 100 ==> r == scaled_pct(sample as int, pct as int),
        0 <= pct <= 100 && sample >= 0 ==> 0 <= r <= sample,
        0 <= pct <= 100 && sample <= 0 ==> sample <= r <= 0,
{
    proof {
        lemma_scaled_pct_unfold(sample as int, pct as int);
        lemma_tdiv_exact(sample as int * 10, 100);
        if 0 <= pct <= 100 {
            lemma_scaled_pct_in_range(sample as int, pct as int);
        }
        assert(-(32768int * 10) * 1000 <= sample as int * 10 * pct <= 32768int * 10
            * 1000) by (nonlinear_arith)
            requires
                -32768 <= sample as int <= 32767 && -1000 <= pct as int <= 1000,
        ;
        lemma_tdiv_bound(sample as int * 10 * pct, 1000, 32768int * 10);
    }
    // scale up the sample to maintain precision when taking a percentage
    let sample_up_scale: i32 = sample as i32 * 1000;
    // take the percentage and scale back down
    let scaled: i32 = sample_up_scale / 100 * pct as i32 / 1000;
    assert(sample_up_scale / 100 == tdiv(sample as int * 1000, 100));
    assert(scaled == scaled_pct(sample as int, pct as int));
    #[verifier::truncate]
    (scaled as i16)
}

/// Multiply two unsigned values and shift the 32-bit product right by 16
/// bits (Q16 fixed point).
pub fn ucfx_mul(a: u16, b: u16) -> (r: u32)
    ensures
        r == a as int * b as int / 65536,
        r <= 65535,
{
    proof {
        assert(a as int * b as int <= 65535 * 65535) by (nonlinear_arith)
            requires
                a as int <= 65535 && b as int <= 65535,
        ;
    }
    let wide: u32 = a as u32 * b as u32;
    let r: u32 = wide >> 16u32;
    proof {
        assert(r == wide as int / 65536) by (bit_vector)
            requires
                r == wide >> 16u32,
        ;
        assert(wide as int / 65536 <= 65535) by (nonlinear_arith)
            requires
                wide <= 0xffff_ffff,
        ;
    }
    r
}

/// Multiply a signed 32-bit value by an unsigned 16-bit value and shift the
/// product right by 16 bits; the arithmetic shift floors toward negative
/// infinity.
pub fn ifx_mul(a: i32, b: u16) -> (r: i32)
    requires
        i32::MIN <= a as int * b as int <= i32::MAX,
    ensures
        r == a as int * b as int / 65536,
{
    let wide: i32 = a * b as i32;
    let r: i32 = wide >> 16u32;
    proof {
        assert(r == wide as int / 65536) by (bit_vector)
            requires
                r == wide >> 16u32,
        ;
    }
    r
}

/// Multiply a signed 64-bit value by a signed 32-bit value and shift the
/// product right by 16 bits; the arithmetic shift floors toward negative
/// infinity.
pub fn fx_mul(a: i64, b: i32) -> (r: i64)
    requires
        i64::MIN <= a as int * b as int <= i64::MAX,
    ensures
        r == a as int * b as int / 65536,
{
    let wide: i64 = a * b as i64;
    let r: i64 = wide >> 16u32;
    proof {
        assert(r == wide as int / 65536) by (bit_vector)
            requires
                r == wide >> 16u32,
        ;
    }
    r
}

} // verus!
