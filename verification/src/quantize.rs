//! Affine quantization arithmetic: a real value is represented as
//! `scale * (quantized - zero_point)`, where `scale` is a strictly positive
//! rational held exactly as an integer numerator/denominator pair, and the
//! quantized value is a signed 8-bit integer. Rounding is always
//! round-half-away-from-zero.

use vstd::arithmetic::div_mod::{lemma_div_nonincreasing, lemma_fundamental_div_mod};
use vstd::prelude::*;

verus! {

/// Largest numerator or denominator a scale may carry. The bound keeps every
/// intermediate product of the kernel and the folder inside a 128-bit
/// integer; it is a machine limit, not part of the quantization model.
pub const SCALE_LIMIT: u32 = 0x100000;

/// Largest magnitude of a numerator accepted by the rounding routine; with
/// denominators below `ROUND_DEN_LIMIT` the routine then never overflows.
pub const ROUND_NUM_LIMIT: i128 = 0x1000000000000000000000000000000;

/// Largest denominator accepted by the rounding routine.
pub const ROUND_DEN_LIMIT: i128 = 0x40000000000000000000000;

/// A strictly positive rational scale factor, `num / den`.
#[derive(Clone, Copy, PartialEq, Eq, Structural, Debug)]
pub struct Scale {
    pub num: u32,
    pub den: u32,
}

impl Scale {
    /// A scale is well formed when it is strictly positive and both parts
    /// stay under `SCALE_LIMIT`.
    pub open spec fn wf(self) -> bool {
        1 <= self.num <= SCALE_LIMIT && 1 <= self.den <= SCALE_LIMIT
    }

    pub fn new(num: u32, den: u32) -> (r: Scale)
        requires
            1 <= num <= SCALE_LIMIT,
            1 <= den <= SCALE_LIMIT,
        ensures
            r.num == num,
            r.den == den,
            r.wf(),
    {
        Scale { num, den }
    }
}

/// Rounds the rational `n / d` (with `d >= 1`) to the nearest integer,
/// halves away from zero.
pub open spec fn round_half_away_spec(n: int, d: int) -> int
    recommends
        d >= 1,
{
    if n >= 0 {
        (2 * n + d) / (2 * d)
    } else {
        -((2 * -n + d) / (2 * d))
    }
}

/// The rounded value differs from `n / d` by at most one half:
/// `|round(n/d) * d - n| <= d / 2`, with fractions cleared.
pub proof fn lemma_round_half_away_error(n: int, d: int)
    requires
        d >= 1,
    ensures
        -d <= 2 * (round_half_away_spec(n, d) * d - n) <= d,
{
    if n >= 0 {
        let r = (2 * n + d) / (2 * d);
        lemma_fundamental_div_mod(2 * n + d, 2 * d);
        let m = (2 * n + d) % (2 * d);
        assert(2 * n + d == 2 * d * r + m);
        assert(2 * d * r == 2 * (r * d)) by (nonlinear_arith);
        assert(2 * (r * d - n) == d - m);
    } else {
        let p = -n;
        let r = (2 * p + d) / (2 * d);
        lemma_fundamental_div_mod(2 * p + d, 2 * d);
        let m = (2 * p + d) % (2 * d);
        assert(2 * p + d == 2 * d * r + m);
        assert(2 * d * r == 2 * (r * d)) by (nonlinear_arith);
        assert(2 * (r * d - p) == d - m);
        assert(round_half_away_spec(n, d) == -r);
        assert(-r * d == -(r * d)) by (nonlinear_arith);
    }
}

/// Rounds `n / d` to the nearest integer, halves away from zero.
pub fn round_half_away(n: i128, d: i128) -> (r: i128)
    requires
        1 <= d <= ROUND_DEN_LIMIT,
        -ROUND_NUM_LIMIT <= n <= ROUND_NUM_LIMIT,
    ensures
        r as int == round_half_away_spec(n as int, d as int),
{
    let m: u128 = if n >= 0 {
        n as u128
    } else {
        (-n) as u128
    };
    let du: u128 = d as u128;
    let q: u128 = (2 * m + du) / (2 * du);
    proof {
        lemma_div_nonincreasing((2 * m + du) as int, (2 * du) as int);
    }
    if n >= 0 {
        q as i128
    } else {
        -(q as i128)
    }
}

/// Restricts a value to the representable range of the signed 8-bit
/// quantized element type.
pub open spec fn clamp_i8_spec(v: int) -> int {
    if v < -128 {
        -128
    } else if v > 127 {
        127
    } else {
        v
    }
}

/// Saturating conversion into the quantized element type.
pub fn clamp_i8(v: i128) -> (r: i8)
    ensures
        r as int == clamp_i8_spec(v as int),
{
    if v < -128 {
        -128
    } else if v > 127 {
        127
    } else {
        v as i8
    }
}

/// The quantized image of the real value `x_num / x_den` under the given
/// scale and zero point: `clamp(round(x / scale) + zero_point)`.
pub open spec fn quantize_spec(x_num: int, x_den: int, scale: Scale, zero_point: int) -> int
    recommends
        x_den >= 1,
        scale.wf(),
{
    clamp_i8_spec(round_half_away_spec(x_num * scale.den, x_den * scale.num) + zero_point)
}

/// Quantizes the real value `x_num / x_den`.
pub fn quantize(x_num: i64, x_den: i64, scale: &Scale, zero_point: i8) -> (r: i8)
    requires
        x_den >= 1,
        scale.wf(),
    ensures
        r as int == quantize_spec(x_num as int, x_den as int, *scale, zero_point as int),
{
    proof {
        lemma_mul_magnitude_bound(x_num as int, scale.den as int, 0x8000000000000000, SCALE_LIMIT as int);
        lemma_mul_magnitude_bound(x_den as int, scale.num as int, 0x8000000000000000, SCALE_LIMIT as int);
        lemma_mul_positive(x_den as int, scale.num as int);
    }
    let n: i128 = (x_num as i128) * (scale.den as i128);
    let d: i128 = (x_den as i128) * (scale.num as i128);
    let rounded: i128 = round_half_away(n, d);
    proof {
        lemma_round_half_away_magnitude(n as int, d as int);
    }
    clamp_i8(rounded + (zero_point as i128))
}

/// The real value represented by a quantized element, as the exact rational
/// `scale.num * (q - zero_point) / scale.den`; the result is that fraction's
/// numerator and denominator.
pub fn dequantize(q: i8, scale: &Scale, zero_point: i8) -> (r: (i64, i64))
    requires
        scale.wf(),
    ensures
        r.0 == scale.num * (q - zero_point),
        r.1 == scale.den,
        r.1 >= 1,
{
    proof {
        lemma_mul_magnitude_bound(scale.num as int, q - zero_point, SCALE_LIMIT as int, 256);
    }
    let diff: i64 = (q as i64) - (zero_point as i64);
    ((scale.num as i64) * diff, scale.den as i64)
}

/// Quantizes a whole buffer of real values elementwise; every entry shares
/// the denominator `x_den`. This is the runtime body of the quantize
/// boundary at the head of a compiled pipeline.
pub fn quantize_buffer(x_num: &Vec<i64>, x_den: i64, scale: &Scale, zero_point: i8) -> (r: Vec<
    i8,
>)
    requires
        x_den >= 1,
        scale.wf(),
    ensures
        r@.len() == x_num@.len(),
        forall|k: int|
            0 <= k < x_num@.len() ==> #[trigger] r@[k] as int == quantize_spec(
                x_num@[k] as int,
                x_den as int,
                *scale,
                zero_point as int,
            ),
{
    let mut r: Vec<i8> = Vec::new();
    let mut k: usize = 0;
    while k < x_num.len()
        invariant
            k <= x_num@.len(),
            x_den >= 1,
            scale.wf(),
            r@.len() == k,
            forall|k0: int|
                0 <= k0 < k ==> #[trigger] r@[k0] as int == quantize_spec(
                    x_num@[k0] as int,
                    x_den as int,
                    *scale,
                    zero_point as int,
                ),
        decreases x_num@.len() - k,
    {
        r.push(quantize(x_num[k], x_den, scale, zero_point));
        k = k + 1;
    }
    r
}

/// Dequantizes a whole buffer elementwise: the result holds each entry's
/// exact numerator, all over the shared denominator `scale.den`. This is
/// the runtime body of the dequantize boundary at the tail of a compiled
/// pipeline.
pub fn dequantize_buffer(q: &Vec<i8>, scale: &Scale, zero_point: i8) -> (r: (Vec<i64>, i64))
    requires
        scale.wf(),
    ensures
        r.1 == scale.den,
        r.0@.len() == q@.len(),
        forall|k: int|
            0 <= k < q@.len() ==> #[trigger] r.0@[k] == scale.num * (q@[k] - zero_point),
{
    let mut nums: Vec<i64> = Vec::new();
    let mut k: usize = 0;
    while k < q.len()
        invariant
            k <= q@.len(),
            scale.wf(),
            nums@.len() == k,
            forall|k0: int|
                0 <= k0 < k ==> #[trigger] nums@[k0] == scale.num * (q@[k0] - zero_point),
        decreases q@.len() - k,
    {
        let (num, _den) = dequantize(q[k], scale, zero_point);
        nums.push(num);
        k = k + 1;
    }
    (nums, scale.den as i64)
}

/// `|a * b| <= bound_a * bound_b` whenever `|a| <= bound_a` and
/// `|b| <= bound_b`.
pub proof fn lemma_mul_magnitude_bound(a: int, b: int, bound_a: int, bound_b: int)
    requires
        -bound_a <= a <= bound_a,
        -bound_b <= b <= bound_b,
    ensures
        -(bound_a * bound_b) <= a * b <= bound_a * bound_b,
{
    assert(-(bound_a * bound_b) <= a * b <= bound_a * bound_b) by (nonlinear_arith)
        requires
            -bound_a <= a <= bound_a,
            -bound_b <= b <= bound_b,
    ;
}

/// The product of two strictly positive values is strictly positive.
pub proof fn lemma_mul_positive(a: int, b: int)
    requires
        a >= 1,
        b >= 1,
    ensures
        a * b >= 1,
{
    assert(a * b >= 1) by (nonlinear_arith)
        requires
            a >= 1,
            b >= 1,
    ;
}

/// The rounded quotient keeps the sign of `n` and its magnitude stays
/// under `2 * |n| + d`.
pub proof fn lemma_round_half_away_magnitude(n: int, d: int)
    requires
        d >= 1,
    ensures
        n >= 0 ==> 0 <= round_half_away_spec(n, d) <= 2 * n + d,
        n < 0 ==> -(2 * -n + d) <= round_half_away_spec(n, d) <= 0,
{
    if n >= 0 {
        lemma_div_nonincreasing(2 * n + d, 2 * d);
        vstd::arithmetic::div_mod::lemma_div_pos_is_pos(2 * n + d, 2 * d);
    } else {
        lemma_div_nonincreasing(2 * -n + d, 2 * d);
        vstd::arithmetic::div_mod::lemma_div_pos_is_pos(2 * -n + d, 2 * d);
    }
}

/// Round-trip law: where quantization does not clamp at the type boundary,
/// the dequantized image of `quantize(x)` lies within half a scale step of
/// `x`. With `x = x_num / x_den` and `dq = scale.num * (q - zero_point) /
/// scale.den`, the distance `|dq - x|` is at most `scale / 2`; both sides
/// are multiplied by `2 * scale.den * x_den` below to clear the fractions.
pub proof fn lemma_quantize_round_trip(x_num: int, x_den: int, scale: Scale, zero_point: int)
    requires
        x_den >= 1,
        scale.wf(),
        -128 <= round_half_away_spec(x_num * scale.den, x_den * scale.num) + zero_point <= 127,
    ensures
        ({
            let q = quantize_spec(x_num, x_den, scale, zero_point);
            let dq_num = scale.num * (q - zero_point);
            -(scale.num * x_den) <= 2 * (dq_num * x_den - x_num * scale.den) <= scale.num * x_den
        }),
{
    let n = x_num * scale.den;
    let d = x_den * scale.num;
    lemma_mul_positive(x_den, scale.num as int);
    let r = round_half_away_spec(n, d);
    lemma_round_half_away_error(n, d);
    let q = quantize_spec(x_num, x_den, scale, zero_point);
    assert(q == r + zero_point);
    let dq_num = scale.num * (q - zero_point);
    assert(dq_num == scale.num * r);
    assert(dq_num * x_den == r * d) by (nonlinear_arith)
        requires
            dq_num == scale.num * r,
            d == x_den * scale.num,
    ;
    assert(scale.num * x_den == d);
}

} // verus!

