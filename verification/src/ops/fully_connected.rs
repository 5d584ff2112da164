//! The fully-connected layer kernel and its folded constants.
//!
//! The compile-time folder (`crate::layers`) reduces the layer's
//! floating-point bookkeeping to five precomputed values; the kernel then
//! performs one integer multiply-accumulate and one exact rational rounding
//! step per output element. Both sides share the arithmetic specified here,
//! so the folded constants are valid exactly for this kernel.

use crate::activation::{apply_activation, apply_activation_spec, FusedActivation};
use crate::buffer::{
    col_sum, dot_prod, lemma_rowmajor_index, lemma_rowmajor_unique, row_sum, Buffer2D, DIM_LIMIT,
};
use crate::quantize::{
    clamp_i8, clamp_i8_spec, lemma_mul_magnitude_bound, round_half_away, round_half_away_spec,
    Scale,
};
use crate::tensor::{BiasTensor, Tensor2D, TensorMeta};
use vstd::arithmetic::mul::lemma_mul_inequality;
use vstd::prelude::*;

verus! {

/// Options attached to a fully-connected operator.
#[derive(Clone, Copy, Debug)]
pub struct FullyConnectedOptions {
    pub fused_activation: FusedActivation,
}

/// Largest shared denominator the folder can produce: a product of four
/// scale parts, each at most `SCALE_LIMIT`.
pub const FOLD_DEN_LIMIT: i128 = 0x100000000000000000000;

/// Largest magnitude of a folded per-column bias numerator: a shared
/// denominator times a 32-bit bias difference.
pub const FOLD_C1_LIMIT: i128 = 0x10000000000000000000000000000;

/// Largest magnitude of a folded zero-point correction: a reduction
/// dimension under `DIM_LIMIT` times two 8-bit zero points.
pub const FOLD_C3_LIMIT: i64 = 0x40000000;

/// The five folded constants of one fully-connected layer. The rational
/// constants are held exactly: `C1[j] = c1_num[j] / den` and
/// `C2 = c2_num / den` over the shared denominator `den`.
#[derive(Clone, Debug)]
pub struct FoldedConstants {
    /// `C0`: the output zero point.
    pub c0: i8,
    /// Numerators of `C1[j] = (biases.scale / output.scale) * (biases[j] -
    /// biases.zero_point)` over `den`.
    pub c1_num: Vec<i128>,
    /// Numerator of `C2 = input.scale * weights.scale / output.scale` over
    /// `den`.
    pub c2_num: i128,
    /// `C3[j] = input.zero_point * (sum of column j of the weights)`.
    pub c3: Vec<i64>,
    /// `C4 = K * input.zero_point * weights.zero_point`, `K` the reduction
    /// dimension.
    pub c4: i64,
    /// The shared positive denominator of `C1` and `C2`.
    pub den: i128,
}

impl FoldedConstants {
    /// The bounds the folder guarantees; they keep the kernel's per-element
    /// numerator inside the range the rounding routine accepts.
    pub open spec fn wf(self) -> bool {
        &&& 1 <= self.den <= FOLD_DEN_LIMIT
        &&& 0 <= self.c2_num <= FOLD_DEN_LIMIT
        &&& self.c1_num.len() == self.c3.len()
        &&& self.c3.len() <= DIM_LIMIT
        &&& forall|j: int|
            0 <= j < self.c1_num.len() ==> -FOLD_C1_LIMIT <= #[trigger] self.c1_num@[j]
                <= FOLD_C1_LIMIT
        &&& forall|j: int|
            0 <= j < self.c3.len() ==> -FOLD_C3_LIMIT <= #[trigger] self.c3@[j] <= FOLD_C3_LIMIT
        &&& -FOLD_C3_LIMIT <= self.c4 <= FOLD_C3_LIMIT
    }
}

/// The folded constants that belong to one fully-connected layer: `input`
/// and `output` give shape and quantization only, `weights` and `biases`
/// carry materialized payloads.
pub open spec fn folded_spec(
    input: TensorMeta,
    weights: Tensor2D,
    biases: BiasTensor,
    output: TensorMeta,
    c: FoldedConstants,
) -> bool {
    let shared = input.scale.den * weights.scale.den * biases.scale.den * output.scale.num;
    &&& c.c0 == output.zero_point
    &&& c.den == shared
    &&& c.c2_num == input.scale.num * weights.scale.num * output.scale.den * biases.scale.den
    &&& c.c1_num.len() == biases.data.len()
    &&& forall|j: int|
        0 <= j < biases.data.len() ==> #[trigger] c.c1_num@[j] == biases.scale.num
            * output.scale.den * input.scale.den * weights.scale.den * (biases.data@[j]
            - biases.zero_point)
    &&& c.c3.len() == weights.buffer.cols
    &&& forall|j: int|
        0 <= j < weights.buffer.cols ==> #[trigger] c.c3@[j] == input.zero_point * col_sum(
            weights.buffer,
            j,
            weights.buffer.rows as int,
        )
    &&& c.c4 == weights.buffer.rows * input.zero_point * weights.zero_point
}

/// The integer accumulator of one output element: the raw dot product,
/// corrected by the row's input sum times the weights' zero point, the
/// folded column correction `C3[j]`, and the folded constant `C4`.
pub open spec fn acc_spec(
    input: Buffer2D,
    weights: Buffer2D,
    weights_zero_point: int,
    c3_j: int,
    c4: int,
    i: int,
    j: int,
) -> int {
    dot_prod(input, weights, i, j, input.cols as int) - weights_zero_point * row_sum(
        input,
        i,
        input.cols as int,
    ) - c3_j + c4
}

/// The exact pre-rounding value of output element `(i, j)`, as the
/// numerator of a fraction over `c.den`:
/// `C0 + C1[j] + C2 * acc`, fractions cleared.
pub open spec fn fc_numerator_spec(
    input: Buffer2D,
    weights: Buffer2D,
    weights_zero_point: int,
    c: FoldedConstants,
    i: int,
    j: int,
) -> int {
    c.c0 * c.den + c.c1_num@[j] + c.c2_num * acc_spec(
        input,
        weights,
        weights_zero_point,
        c.c3@[j] as int,
        c.c4 as int,
        i,
        j,
    )
}

/// One output element: the rounded, clamped value with the fused
/// activation applied in the output's quantized domain.
pub open spec fn fc_element_spec(
    input: Buffer2D,
    weights: Buffer2D,
    weights_zero_point: int,
    c: FoldedConstants,
    activation: FusedActivation,
    output_scale: Scale,
    output_zero_point: int,
    i: int,
    j: int,
) -> int {
    let n = fc_numerator_spec(input, weights, weights_zero_point, c, i, j);
    let v = clamp_i8_spec(round_half_away_spec(n, c.den as int));
    apply_activation_spec(activation, v, output_scale, output_zero_point)
}

/// Runs one fully-connected layer: for every output element `(i, j)` it
/// accumulates the integer dot product, applies the folded constants, rounds
/// half away from zero, clamps into the 8-bit range and applies the fused
/// activation. The result is a fresh tensor carrying the output scale and
/// zero point.
pub fn fully_connected(
    input: &Tensor2D,
    weights: &Tensor2D,
    output_scale: Scale,
    output_zero_point: i8,
    options: FullyConnectedOptions,
    constants: &FoldedConstants,
) -> (r: Tensor2D)
    requires
        input.wf(),
        weights.wf(),
        output_scale.wf(),
        constants.wf(),
        input.buffer.cols == weights.buffer.rows,
        constants.c1_num.len() == weights.buffer.cols,
        constants.c0 == output_zero_point,
    ensures
        r.wf(),
        r.buffer.rows == input.buffer.rows,
        r.buffer.cols == weights.buffer.cols,
        r.scale == output_scale,
        r.zero_point == output_zero_point,
        forall|i: int, j: int|
            0 <= i < input.buffer.rows && 0 <= j < weights.buffer.cols ==> #[trigger] r.buffer.idx(
                i,
                j,
            ) == fc_element_spec(
                input.buffer,
                weights.buffer,
                weights.zero_point as int,
                *constants,
                options.fused_activation,
                output_scale,
                output_zero_point as int,
                i,
                j,
            ),
{
    let m: usize = input.buffer.rows;
    let p: usize = input.buffer.cols;
    let n: usize = weights.buffer.cols;
    let mut data: Vec<i8> = Vec::new();
    let mut i: usize = 0;
    while i < m
        invariant
            i <= m,
            m == input.buffer.rows,
            p == input.buffer.cols,
            n == weights.buffer.cols,
            input.wf(),
            weights.wf(),
            output_scale.wf(),
            constants.wf(),
            input.buffer.cols == weights.buffer.rows,
            constants.c1_num.len() == weights.buffer.cols,
            constants.c0 == output_zero_point,
            data@.len() == i * n,
            forall|i0: int, j0: int|
                0 <= i0 && 0 <= j0 < n as int && i0 * n as int + j0 < data@.len()
                    ==> #[trigger] data@[i0 * n as int + j0] == fc_element_spec(
                    input.buffer,
                    weights.buffer,
                    weights.zero_point as int,
                    *constants,
                    options.fused_activation,
                    output_scale,
                    output_zero_point as int,
                    i0,
                    j0,
                ),
        decreases m - i,
    {
        let mut j: usize = 0;
        while j < n
            invariant
                i < m,
                j <= n,
                m == input.buffer.rows,
                p == input.buffer.cols,
                n == weights.buffer.cols,
                input.wf(),
                weights.wf(),
                output_scale.wf(),
                constants.wf(),
                input.buffer.cols == weights.buffer.rows,
                constants.c1_num.len() == weights.buffer.cols,
                constants.c0 == output_zero_point,
                data@.len() == i * n + j,
                forall|i0: int, j0: int|
                    0 <= i0 && 0 <= j0 < n as int && i0 * n as int + j0 < data@.len()
                        ==> #[trigger] data@[i0 * n as int + j0] == fc_element_spec(
                        input.buffer,
                        weights.buffer,
                        weights.zero_point as int,
                        *constants,
                        options.fused_activation,
                        output_scale,
                        output_zero_point as int,
                        i0,
                        j0,
                    ),
            decreases n - j,
        {
            let mut dot: i64 = 0;
            let mut rsum: i64 = 0;
            let mut k: usize = 0;
            while k < p
                invariant
                    k <= p,
                    i < m,
                    j < n,
                    m == input.buffer.rows,
                    p == input.buffer.cols,
                    n == weights.buffer.cols,
                    input.wf(),
                    weights.wf(),
                    input.buffer.cols == weights.buffer.rows,
                    dot == dot_prod(input.buffer, weights.buffer, i as int, j as int, k as int),
                    rsum == row_sum(input.buffer, i as int, k as int),
                    -(k as int * 16384) <= dot as int <= k as int * 16384,
                    -(k as int * 128) <= rsum as int <= k as int * 128,
                decreases p - k,
            {
                let a: i8 = input.buffer.get(i, k);
                let b: i8 = weights.buffer.get(k, j);
                proof {
                    lemma_mul_magnitude_bound(a as int, b as int, 128, 128);
                }
                dot = dot + (a as i64) * (b as i64);
                rsum = rsum + (a as i64);
                k = k + 1;
            }
            proof {
                lemma_mul_inequality(p as int, DIM_LIMIT as int, 16384);
                lemma_mul_inequality(p as int, DIM_LIMIT as int, 128);
                lemma_mul_magnitude_bound(
                    weights.zero_point as int,
                    rsum as int,
                    128,
                    p as int * 128,
                );
                assert(128 * (p as int * 128) == p as int * 16384) by (nonlinear_arith);
            }
            let corr: i64 = (weights.zero_point as i64) * rsum;
            let acc: i64 = dot - corr - constants.c3[j] + constants.c4;
            proof {
                lemma_mul_magnitude_bound(
                    output_zero_point as int,
                    constants.den as int,
                    128,
                    FOLD_DEN_LIMIT as int,
                );
                lemma_mul_magnitude_bound(
                    constants.c2_num as int,
                    acc as int,
                    FOLD_DEN_LIMIT as int,
                    0x200000000,
                );
            }
            let zp_term: i128 = (output_zero_point as i128) * constants.den;
            let scaled: i128 = constants.c2_num * (acc as i128);
            let num: i128 = zp_term + constants.c1_num[j] + scaled;
            let rounded: i128 = round_half_away(num, constants.den);
            let v: i8 = clamp_i8(rounded);
            let y: i8 = apply_activation(
                options.fused_activation,
                v,
                &output_scale,
                output_zero_point,
            );
            data.push(y);
            proof {
                let nn = n as int;
                let ghost old_len = i as int * nn + j as int;
                assert forall|i0: int, j0: int|
                    0 <= i0 && 0 <= j0 < nn && i0 * nn + j0 < data@.len() implies #[trigger] data@[i0
                    * nn + j0] == fc_element_spec(
                    input.buffer,
                    weights.buffer,
                    weights.zero_point as int,
                    *constants,
                    options.fused_activation,
                    output_scale,
                    output_zero_point as int,
                    i0,
                    j0,
                ) by {
                    if i0 * nn + j0 == old_len {
                        lemma_rowmajor_unique(i0, j0, i as int, j as int, nn);
                    }
                }
            }
            j = j + 1;
        }
        proof {
            assert(i as int * n as int + n as int == (i as int + 1) * n as int) by (nonlinear_arith);
        }
        i = i + 1;
    }
    proof {
        assert forall|i0: int, j0: int| 0 <= i0 < m as int && 0 <= j0 < n as int implies #[trigger] (
        i0 * n as int + j0) < data@.len() by {
            lemma_rowmajor_index(i0, m as int, j0, n as int);
        }
    }
    let buffer = Buffer2D::new(m, n, data);
    Tensor2D::new(buffer, output_scale, output_zero_point)
}

/// `sum of (a[i][t] - a_zp) * (b[t][j] - b_zp) for t < k`: the reference
/// dot product over zero-point-shifted operands, before any folding.
pub open spec fn shifted_dot(
    a: Buffer2D,
    b: Buffer2D,
    a_zp: int,
    b_zp: int,
    i: int,
    j: int,
    k: int,
) -> int
    decreases k,
{
    if k <= 0 {
        0
    } else {
        shifted_dot(a, b, a_zp, b_zp, i, j, k - 1) + (a.idx(i, k - 1) - a_zp) * (b.idx(k - 1, j)
            - b_zp)
    }
}

/// Expanding each product shows that the shifted dot product equals the
/// raw dot product corrected by both zero points:
/// `sum (a-azp)(b-bzp) = sum ab - bzp * sum a - azp * sum b + k * azp * bzp`.
pub proof fn lemma_shifted_dot(a: Buffer2D, b: Buffer2D, a_zp: int, b_zp: int, i: int, j: int, k: int)
    requires
        k >= 0,
    ensures
        shifted_dot(a, b, a_zp, b_zp, i, j, k) == dot_prod(a, b, i, j, k) - b_zp * row_sum(a, i, k)
            - a_zp * col_sum(b, j, k) + k * a_zp * b_zp,
    decreases k,
{
    if k > 0 {
        lemma_shifted_dot(a, b, a_zp, b_zp, i, j, k - 1);
        let x = a.idx(i, k - 1);
        let y = b.idx(k - 1, j);
        assert((x - a_zp) * (y - b_zp) == x * y - b_zp * x - a_zp * y + a_zp * b_zp)
            by (nonlinear_arith);
        assert(b_zp * row_sum(a, i, k) == b_zp * row_sum(a, i, k - 1) + b_zp * x)
            by (nonlinear_arith)
            requires
                row_sum(a, i, k) == row_sum(a, i, k - 1) + x,
        ;
        assert(a_zp * col_sum(b, j, k) == a_zp * col_sum(b, j, k - 1) + a_zp * y)
            by (nonlinear_arith)
            requires
                col_sum(b, j, k) == col_sum(b, j, k - 1) + y,
        ;
        assert(k * a_zp * b_zp == (k - 1) * a_zp * b_zp + a_zp * b_zp) by (nonlinear_arith);
    } else {
        assert(k * a_zp * b_zp == 0) by (nonlinear_arith)
            requires
                k == 0,
        ;
    }
}

/// The unfolded reference value of output element `(i, j)`: the layer
/// formula computed directly from the four tensors' quantization
/// parameters, using no folded constant —
/// `C0 + (biases.scale / output.scale) * (biases[j] - biases.zero_point)
///  + (input.scale * weights.scale / output.scale)
///    * sum_k (in[i][k] - in_zp) * (w[k][j] - w_zp)` —
/// as a numerator over the shared denominator
/// `input.scale.den * weights.scale.den * biases.scale.den * output.scale.num`.
pub open spec fn reference_numerator_spec(
    input_data: Buffer2D,
    input: TensorMeta,
    weights: Tensor2D,
    biases: BiasTensor,
    output: TensorMeta,
    i: int,
    j: int,
) -> int {
    let shared = input.scale.den * weights.scale.den * biases.scale.den * output.scale.num;
    output.zero_point * shared + biases.scale.num * output.scale.den * input.scale.den
        * weights.scale.den * (biases.data@[j] - biases.zero_point) + input.scale.num
        * weights.scale.num * output.scale.den * biases.scale.den * shifted_dot(
        input_data,
        weights.buffer,
        input.zero_point as int,
        weights.zero_point as int,
        i,
        j,
        input_data.cols as int,
    )
}

/// Folding-equivalence law: with constants folded as `folded_spec`
/// demands, the kernel's pre-rounding numerator over the shared
/// denominator is exactly the unfolded reference value. The two
/// computations agree exactly, not merely within one quantized unit,
/// because both are carried out in exact rational arithmetic.
pub proof fn lemma_folding_equivalence(
    input_data: Buffer2D,
    input: TensorMeta,
    weights: Tensor2D,
    biases: BiasTensor,
    output: TensorMeta,
    c: FoldedConstants,
    i: int,
    j: int,
)
    requires
        folded_spec(input, weights, biases, output, c),
        input_data.cols == weights.buffer.rows,
        0 <= j < biases.data.len(),
        j < c.c3.len(),
        j < weights.buffer.cols,
    ensures
        fc_numerator_spec(input_data, weights.buffer, weights.zero_point as int, c, i, j)
            == reference_numerator_spec(input_data, input, weights, biases, output, i, j),
{
    let k = input_data.cols as int;
    lemma_shifted_dot(
        input_data,
        weights.buffer,
        input.zero_point as int,
        weights.zero_point as int,
        i,
        j,
        k,
    );
    assert(k * input.zero_point * weights.zero_point == c.c4) by {
        assert(weights.buffer.rows * input.zero_point * weights.zero_point == k * input.zero_point
            * weights.zero_point);
    }
    assert(shifted_dot(
        input_data,
        weights.buffer,
        input.zero_point as int,
        weights.zero_point as int,
        i,
        j,
        k,
    ) == acc_spec(
        input_data,
        weights.buffer,
        weights.zero_point as int,
        c.c3@[j] as int,
        c.c4 as int,
        i,
        j,
    ));
}

/// Determinism law: the kernel's contract pins every output element to
/// `fc_element_spec`, so two results of the same layer on the same
/// operands are identical bit for bit.
pub proof fn lemma_fully_connected_deterministic(
    input: Buffer2D,
    weights: Buffer2D,
    weights_zero_point: int,
    c: FoldedConstants,
    activation: FusedActivation,
    output_scale: Scale,
    output_zero_point: i8,
    r1: Tensor2D,
    r2: Tensor2D,
)
    requires
        r1.buffer.wf(),
        r2.buffer.wf(),
        r1.buffer.rows == input.rows,
        r2.buffer.rows == input.rows,
        r1.buffer.cols == weights.cols,
        r2.buffer.cols == weights.cols,
        r1.scale == output_scale,
        r2.scale == output_scale,
        r1.zero_point == output_zero_point,
        r2.zero_point == output_zero_point,
        forall|i: int, j: int|
            0 <= i < input.rows && 0 <= j < weights.cols ==> #[trigger] r1.buffer.idx(i, j)
                == fc_element_spec(
                input,
                weights,
                weights_zero_point,
                c,
                activation,
                output_scale,
                output_zero_point as int,
                i,
                j,
            ),
        forall|i: int, j: int|
            0 <= i < input.rows && 0 <= j < weights.cols ==> #[trigger] r2.buffer.idx(i, j)
                == fc_element_spec(
                input,
                weights,
                weights_zero_point,
                c,
                activation,
                output_scale,
                output_zero_point as int,
                i,
                j,
            ),
    ensures
        r1.buffer.data@ == r2.buffer.data@,
        r1.scale == r2.scale,
        r1.zero_point == r2.zero_point,
{
    let rows = input.rows as int;
    let cols = weights.cols as int;
    assert(r1.buffer.data@.len() == rows * cols);
    assert(r2.buffer.data@.len() == rows * cols);
    assert forall|idx: int| 0 <= idx < rows * cols implies r1.buffer.data@[idx]
        == r2.buffer.data@[idx] by {
        if cols > 0 {
            let i0 = idx / cols;
            let j0 = idx % cols;
            vstd::arithmetic::div_mod::lemma_fundamental_div_mod(idx, cols);
            vstd::arithmetic::div_mod::lemma_mod_bound(idx, cols);
            vstd::arithmetic::div_mod::lemma_div_pos_is_pos(idx, cols);
            assert(idx < cols * rows) by (nonlinear_arith)
                requires
                    idx < rows * cols,
            ;
            vstd::arithmetic::div_mod::lemma_multiply_divide_lt(idx, cols, rows);
            assert(idx == i0 * cols + j0) by (nonlinear_arith)
                requires
                    idx == cols * i0 + j0,
            ;
            assert(r1.buffer.idx(i0, j0) == r2.buffer.idx(i0, j0));
        } else {
            assert(rows * cols == 0) by (nonlinear_arith)
                requires
                    cols == 0,
            ;
        }
    }
    assert(r1.buffer.data@ =~= r2.buffer.data@);
}

} // verus!
