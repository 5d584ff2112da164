//! The runtime operator entry points called from generated code.

use crate::activation::FusedActivation;
use crate::quantize::Scale;
use crate::tensor::Tensor2D;
use vstd::prelude::*;

pub mod fully_connected;

verus! {

/// Runs one fully-connected layer, dispatching on the fused activation.
/// The folded constants must have been produced for this layer; in
/// particular their `C0` is the output zero point.
pub fn fully_connected(
    input: &Tensor2D,
    weights: &Tensor2D,
    scale: Scale,
    zero_point: i8,
    activation: FusedActivation,
    constants: &crate::ops::fully_connected::FoldedConstants,
) -> (r: Tensor2D)
    requires
        input.wf(),
        weights.wf(),
        scale.wf(),
        constants.wf(),
        input.buffer.cols == weights.buffer.rows,
        constants.c1_num.len() == weights.buffer.cols,
        constants.c0 == zero_point,
    ensures
        r.wf(),
        r.buffer.rows == input.buffer.rows,
        r.buffer.cols == weights.buffer.cols,
        r.scale == scale,
        r.zero_point == zero_point,
        forall|i: int, j: int|
            0 <= i < input.buffer.rows && 0 <= j < weights.buffer.cols ==> #[trigger] r.buffer.idx(
                i,
                j,
            ) == crate::ops::fully_connected::fc_element_spec(
                input.buffer,
                weights.buffer,
                weights.zero_point as int,
                *constants,
                activation,
                scale,
                zero_point as int,
                i,
                j,
            ),
{
    crate::ops::fully_connected::fully_connected(
        input,
        weights,
        scale,
        zero_point,
        crate::ops::fully_connected::FullyConnectedOptions { fused_activation: activation },
        constants,
    )
}

} // verus!
