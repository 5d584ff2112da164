//! Fused activations applied elementwise to a layer's output. The input
//! value is already expressed in the output's quantized domain, so RELU
//! clamps at the output zero point (the quantized image of real zero) and
//! RELU6 additionally clamps at the quantized image of the real value six.

use crate::quantize::{round_half_away_spec, Scale};
use vstd::prelude::*;

verus! {

/// The fused activation attached to an operator's options.
#[allow(non_camel_case_types)]
#[derive(Clone, Copy, PartialEq, Eq, Structural, Debug)]
pub enum FusedActivation {
    NONE,
    RELU,
    RELU6,
}

/// `RELU(v) = max(v, zero_point)`.
pub open spec fn relu_spec(v: int, zero_point: int) -> int {
    if v >= zero_point {
        v
    } else {
        zero_point
    }
}

/// The quantized image of the real threshold six under the output scale:
/// `zero_point + round(6 / scale)`.
pub open spec fn relu6_upper_spec(scale: Scale, zero_point: int) -> int
    recommends
        scale.wf(),
{
    zero_point + round_half_away_spec(6 * scale.den, scale.num as int)
}

/// `RELU6(v) = clamp(v, zero_point, upper)`.
pub open spec fn relu6_spec(v: int, zero_point: int, upper: int) -> int
    recommends
        zero_point <= upper,
{
    if v < zero_point {
        zero_point
    } else if v > upper {
        upper
    } else {
        v
    }
}

/// The value of a fused activation on one output element.
pub open spec fn apply_activation_spec(
    activation: FusedActivation,
    v: int,
    scale: Scale,
    zero_point: int,
) -> int
    recommends
        scale.wf(),
{
    match activation {
        FusedActivation::NONE => v,
        FusedActivation::RELU => relu_spec(v, zero_point),
        FusedActivation::RELU6 => relu6_spec(v, zero_point, relu6_upper_spec(scale, zero_point)),
    }
}

/// Rectified linear unit in the quantized domain.
pub fn relu(v: i8, zero_point: i8) -> (r: i8)
    ensures
        r as int == relu_spec(v as int, zero_point as int),
{
    if v >= zero_point {
        v
    } else {
        zero_point
    }
}

/// The upper clamp bound used by RELU6, `zero_point + round(6 / scale)`.
pub fn relu6_upper(scale: &Scale, zero_point: i8) -> (r: i64)
    requires
        scale.wf(),
    ensures
        r as int == relu6_upper_spec(*scale, zero_point as int),
        zero_point as int <= r as int,
{
    proof {
        crate::quantize::lemma_round_half_away_magnitude(6 * scale.den as int, scale.num as int);
    }
    let rounded: i128 = crate::quantize::round_half_away(
        6 * (scale.den as i128),
        scale.num as i128,
    );
    (zero_point as i64) + (rounded as i64)
}

/// Rectified linear unit clamped at the quantized image of six.
pub fn relu6(v: i8, scale: &Scale, zero_point: i8) -> (r: i8)
    requires
        scale.wf(),
    ensures
        r as int == relu6_spec(
            v as int,
            zero_point as int,
            relu6_upper_spec(*scale, zero_point as int),
        ),
{
    let upper: i64 = relu6_upper(scale, zero_point);
    if (v as i64) < (zero_point as i64) {
        zero_point
    } else if (v as i64) > upper {
        upper as i8
    } else {
        v
    }
}

/// Applies the fused activation to one element of the output tensor.
pub fn apply_activation(
    activation: FusedActivation,
    v: i8,
    scale: &Scale,
    zero_point: i8,
) -> (r: i8)
    requires
        scale.wf(),
    ensures
        r as int == apply_activation_spec(activation, v as int, *scale, zero_point as int),
{
    match activation {
        FusedActivation::NONE => v,
        FusedActivation::RELU => relu(v, zero_point),
        FusedActivation::RELU6 => relu6(v, scale, zero_point),
    }
}

/// RELU law: the result never falls below the zero point, and values at or
/// above the zero point pass through unchanged.
pub proof fn lemma_relu_correct(v: int, zero_point: int)
    ensures
        relu_spec(v, zero_point) >= zero_point,
        v >= zero_point ==> relu_spec(v, zero_point) == v,
{
}

/// RELU6 law: the result is bounded by the zero point below and by
/// `zero_point + round(6 / scale)` above.
pub proof fn lemma_relu6_bounded(v: int, scale: Scale, zero_point: int)
    requires
        scale.wf(),
    ensures
        zero_point <= relu6_spec(v, zero_point, relu6_upper_spec(scale, zero_point)),
        relu6_spec(v, zero_point, relu6_upper_spec(scale, zero_point)) <= relu6_upper_spec(
            scale,
            zero_point,
        ),
{
    crate::quantize::lemma_round_half_away_magnitude(6 * scale.den, scale.num as int);
}

} // verus!
